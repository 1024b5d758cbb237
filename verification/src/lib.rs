//! Settlement engine for a pool-based binary-outcome betting market.
//!
//! Participants deposit value into a YES pool or a NO pool; after the event
//! resolves, the losing pool is redistributed to winners in proportion to
//! their stake.  A liquidity provider seeds the pools at market creation and
//! earns a share of every bet's fee.  All arithmetic is integer-only and
//! overflow-checked; every operation either succeeds completely or reports an
//! error and changes nothing.
//!
//! Moving value between accounts, account provisioning and caller
//! authentication are the surrounding platform's job: the engine only decides
//! amounts, validates transitions, and updates the bookkeeping entities.

pub mod errors;
pub mod state;
pub mod fees;
pub mod initialize;
pub mod create_market;
pub mod place_bet;
pub mod resolve_market;
pub mod claim_payout;
pub mod claim_lp_fees;
pub mod laws;
