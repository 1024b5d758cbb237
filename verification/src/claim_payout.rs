use vstd::prelude::*;
use vstd::arithmetic::mul::lemma_mul_upper_bound;
use crate::errors::ErrorCode;
use crate::state::{Market, MarketState, Position};

verus! {

/// A winner's share of the losing pool, proportional to its stake in the
/// winning pool, floored.
pub open spec fn winner_share_of(stake: u64, losing_pool: u64, winning_pool: u64) -> int {
    stake * losing_pool / (winning_pool as int)
}

/// What a winning position of `stake` is paid: its own stake back, plus its
/// proportional share of the losing pool.
pub open spec fn payout_of(stake: u64, losing_pool: u64, winning_pool: u64) -> int {
    stake + winner_share_of(stake, losing_pool, winning_pool)
}

/// Whether a claim on this (market, position) pair is allowed: the market is
/// resolved, the position is not yet claimed, and it sits on the winning
/// side.
pub open spec fn claim_allowed(m: Market, pos: Position) -> bool {
    &&& m.state == MarketState::Resolved
    &&& !pos.claimed
    &&& m.outcome == Some(pos.side)
}

/// Claim the payout of a position on a resolved market, exactly once.  On
/// success the position is marked claimed and the returned amount is what
/// the platform then moves from the market's escrow to the bettor; on any
/// error the position is unchanged and nothing moves.
///
/// The share is computed in 128 bits; narrowing it back to 64 bits, or
/// adding the stake back on top, can still overflow, and then nothing is
/// paid.
pub fn claim_payout(market: &Market, position: &mut Position) -> (r: Result<u64, ErrorCode>)
    requires
        market.wf(),
    ensures
        r is Err ==> *final(position) == *old(position),
        ({
            let pos = *old(position);
            let winning_pool = if market.outcome == Some(true) {
                market.yes_pool
            } else {
                market.no_pool
            };
            let losing_pool = if market.outcome == Some(true) {
                market.no_pool
            } else {
                market.yes_pool
            };
            let share = winner_share_of(pos.amount, losing_pool, winning_pool);
            if market.state != MarketState::Resolved {
                r == Err::<u64, ErrorCode>(ErrorCode::NotResolved)
            } else if pos.claimed {
                r == Err::<u64, ErrorCode>(ErrorCode::AlreadyClaimed)
            } else if market.outcome != Some(pos.side) {
                r == Err::<u64, ErrorCode>(ErrorCode::PositionLost)
            } else if share > u64::MAX || pos.amount + share > u64::MAX {
                r == Err::<u64, ErrorCode>(ErrorCode::Overflow)
            } else {
                &&& r == Ok::<u64, ErrorCode>(payout_of(pos.amount, losing_pool, winning_pool) as u64)
                &&& *final(position) == (Position { claimed: true, ..pos })
            }
        }),
        r is Ok ==> claim_allowed(*market, *old(position)),
        r is Ok ==> final(position).claimed && final(position).amount == old(position).amount
            && final(position).side == old(position).side,
{
    let outcome: bool = match market.outcome {
        Some(o) => o,
        None => {
            return Err(ErrorCode::NotResolved);
        },
    };
    if market.state != MarketState::Resolved {
        return Err(ErrorCode::NotResolved);
    }
    if position.claimed {
        return Err(ErrorCode::AlreadyClaimed);
    }
    if position.side != outcome {
        return Err(ErrorCode::PositionLost);
    }

    let (winning_pool, losing_pool): (u64, u64) = if outcome {
        (market.yes_pool, market.no_pool)
    } else {
        (market.no_pool, market.yes_pool)
    };

    proof {
        lemma_mul_upper_bound(
            position.amount as int,
            u64::MAX as int,
            losing_pool as int,
            u64::MAX as int,
        );
    }
    // The product of two 64-bit values always fits in 128 bits; the market's
    // well-formedness keeps the winning pool positive.
    let share_wide: u128 = (position.amount as u128) * (losing_pool as u128) / (
    winning_pool as u128);
    if share_wide > u64::MAX as u128 {
        return Err(ErrorCode::Overflow);
    }
    let winner_share: u64 = share_wide as u64;
    if position.amount > u64::MAX - winner_share {
        return Err(ErrorCode::Overflow);
    }
    let total_payout: u64 = position.amount + winner_share;

    position.claimed = true;
    Ok(total_payout)
}

} // verus!
