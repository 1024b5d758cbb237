use vstd::prelude::*;
use crate::state::GlobalState;

verus! {

/// One-time protocol setup: record the fee rate and the treasury and admin
/// accounts, and start the market counter at zero.
///
/// Keeping the fee rate within 10000 basis points is the caller's duty; it is
/// stated here as a precondition rather than re-checked.
pub fn initialize_protocol(fee_rate: u16, protocol_treasury: u64, admin: u64) -> (gs: GlobalState)
    requires
        fee_rate <= 10000,
    ensures
        gs == (GlobalState { market_counter: 0, fee_rate, protocol_treasury, admin }),
        gs.wf(),
{
    GlobalState { market_counter: 0, fee_rate, protocol_treasury, admin }
}

} // verus!
