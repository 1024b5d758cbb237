use vstd::prelude::*;
use crate::errors::ErrorCode;
use crate::state::{Market, MarketState};

verus! {

/// Whether a resolution attempt is accepted: the caller is the market's
/// designated resolver, the market is still active, and the close time has
/// strictly passed.
pub open spec fn resolve_accepted(m: Market, caller: u64, current_time: i64) -> bool {
    &&& caller == m.resolver
    &&& m.state == MarketState::Active
    &&& current_time > m.close_time
}

/// The market a successful resolution produces: the supplied outcome is
/// recorded, the state becomes `Resolved`, and the resolution time is set.
/// The pools are frozen from here on.
pub open spec fn resolved_market(m: Market, outcome: bool, current_time: i64) -> Market {
    Market {
        state: MarketState::Resolved,
        outcome: Some(outcome),
        resolution_time: Some(current_time),
        ..m
    }
}

/// Resolve the market: a one-way, terminal transition that only the
/// designated resolver may make, and only once the close time has strictly
/// passed.  On any error the market is unchanged.
pub fn resolve_market(market: &mut Market, caller: u64, outcome: bool, current_time: i64) -> (r:
    Result<(), ErrorCode>)
    requires
        old(market).wf(),
    ensures
        final(market).wf(),
        r is Err ==> *final(market) == *old(market),
        ({
            let m = *old(market);
            if caller != m.resolver {
                r == Err::<(), ErrorCode>(ErrorCode::UnauthorizedResolver)
            } else if m.state != MarketState::Active {
                r == Err::<(), ErrorCode>(ErrorCode::MarketNotActive)
            } else if current_time <= m.close_time {
                r == Err::<(), ErrorCode>(ErrorCode::MarketStillOpen)
            } else {
                r is Ok && *final(market) == resolved_market(m, outcome, current_time)
            }
        }),
        r is Ok <==> resolve_accepted(*old(market), caller, current_time),
        r is Ok ==> final(market).yes_pool == old(market).yes_pool && final(market).no_pool == old(
            market,
        ).no_pool && final(market).total_liquidity == old(market).total_liquidity,
{
    if caller != market.resolver {
        return Err(ErrorCode::UnauthorizedResolver);
    }
    if market.state != MarketState::Active {
        return Err(ErrorCode::MarketNotActive);
    }
    if current_time <= market.close_time {
        return Err(ErrorCode::MarketStillOpen);
    }
    market.outcome = Some(outcome);
    market.state = MarketState::Resolved;
    market.resolution_time = Some(current_time);
    Ok(())
}

} // verus!
