use vstd::prelude::*;
use crate::errors::ErrorCode;
use crate::state::LPPosition;

verus! {

/// The liquidity position after a successful fee claim: the accrued balance
/// is withdrawn in full and folded into the cumulative claimed total.
pub open spec fn lp_position_after_claim(lp: LPPosition) -> LPPosition {
    LPPosition {
        fees_earned: 0,
        fees_claimed: true,
        fees_claimed_amount: (lp.fees_claimed_amount + lp.fees_earned) as u64,
        ..lp
    }
}

/// Claim all accrued liquidity-provider fees.  On success the returned
/// amount is what the platform then moves from the market's escrow to the
/// provider; the accrued balance is zeroed and the cumulative claimed total
/// grows by exactly that amount.  A claim with nothing accrued fails cleanly
/// with no side effects, so the operation is idempotent-safe.
pub fn claim_lp_fees(lp_position: &mut LPPosition) -> (r: Result<u64, ErrorCode>)
    ensures
        r is Err ==> *final(lp_position) == *old(lp_position),
        ({
            let lp = *old(lp_position);
            if lp.fees_earned == 0 {
                r == Err::<u64, ErrorCode>(ErrorCode::NoFeesToClaim)
            } else if lp.fees_claimed_amount + lp.fees_earned > u64::MAX {
                r == Err::<u64, ErrorCode>(ErrorCode::Overflow)
            } else {
                &&& r == Ok::<u64, ErrorCode>(lp.fees_earned)
                &&& *final(lp_position) == lp_position_after_claim(lp)
            }
        }),
        // The cumulative claimed total never decreases.
        final(lp_position).fees_claimed_amount >= old(lp_position).fees_claimed_amount,
        // Claiming never invents fees: whatever is paid out was accrued.
        r matches Ok(paid) ==> paid == old(lp_position).fees_earned
            && final(lp_position).fees_claimed_amount == old(lp_position).fees_claimed_amount
            + paid,
{
    if lp_position.fees_earned == 0 {
        return Err(ErrorCode::NoFeesToClaim);
    }
    let fees_to_claim: u64 = lp_position.fees_earned;
    if lp_position.fees_claimed_amount > u64::MAX - fees_to_claim {
        return Err(ErrorCode::Overflow);
    }
    lp_position.fees_claimed = true;
    lp_position.fees_claimed_amount = lp_position.fees_claimed_amount + fees_to_claim;
    lp_position.fees_earned = 0;
    Ok(fees_to_claim)
}

} // verus!
