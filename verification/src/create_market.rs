use vstd::prelude::*;
use crate::errors::ErrorCode;
use crate::state::{GlobalState, LPPosition, Market, MarketState};

verus! {

/// Smallest initial liquidity a market may be created with: one whole unit
/// of the native currency in its minor denomination.
pub const MIN_LIQUIDITY: u64 = 1_000_000_000;

/// The market a successful creation produces: the next id from the counter,
/// the initial liquidity split evenly between the pools (an odd unit is
/// dropped by the integer division), and the creator as resolver.
pub open spec fn created_market(
    gs: GlobalState,
    creator: u64,
    question: [u8; 200],
    initial_liquidity: u64,
    close_time: i64,
) -> Market {
    Market {
        market_id: (gs.market_counter + 1) as u64,
        question,
        creator,
        resolver: creator,
        yes_pool: initial_liquidity / 2,
        no_pool: initial_liquidity / 2,
        total_liquidity: initial_liquidity,
        state: MarketState::Active,
        outcome: None,
        close_time,
        resolution_time: None,
    }
}

/// The liquidity position a successful creation produces: the creator's
/// whole deposit, with no fees accrued or claimed yet.
pub open spec fn created_lp_position(
    gs: GlobalState,
    creator: u64,
    initial_liquidity: u64,
) -> LPPosition {
    LPPosition {
        lp_provider: creator,
        market: (gs.market_counter + 1) as u64,
        liquidity_provided: initial_liquidity,
        fees_earned: 0,
        fees_claimed: false,
        fees_claimed_amount: 0,
    }
}

/// Create a market against the protocol configuration: validate the inputs,
/// bump the market counter, and produce the market and its liquidity
/// position.  The caller then moves `initial_liquidity` from the creator to
/// the market's escrow; on any error nothing changes and nothing moves.
pub fn create_market(
    global_state: &mut GlobalState,
    creator: u64,
    creator_balance: u64,
    question: [u8; 200],
    initial_liquidity: u64,
    close_time: i64,
    current_time: i64,
) -> (r: Result<(Market, LPPosition), ErrorCode>)
    requires
        old(global_state).wf(),
        old(global_state).market_counter < u64::MAX,
    ensures
        final(global_state).wf(),
        final(global_state).fee_rate == old(global_state).fee_rate,
        final(global_state).protocol_treasury == old(global_state).protocol_treasury,
        final(global_state).admin == old(global_state).admin,
        r is Err ==> *final(global_state) == *old(global_state),
        ({
            let gs = *old(global_state);
            if creator_balance == 0 {
                r == Err::<(Market, LPPosition), ErrorCode>(ErrorCode::InsufficientBalance)
            } else if initial_liquidity == 0 {
                r == Err::<(Market, LPPosition), ErrorCode>(ErrorCode::InvalidLiquidity)
            } else if initial_liquidity < MIN_LIQUIDITY {
                r == Err::<(Market, LPPosition), ErrorCode>(ErrorCode::LiquidityTooLow)
            } else if close_time <= current_time {
                r == Err::<(Market, LPPosition), ErrorCode>(ErrorCode::InvalidCloseTime)
            } else if question[0] == 0 {
                r == Err::<(Market, LPPosition), ErrorCode>(ErrorCode::EmptyQuestion)
            } else {
                &&& r == Ok::<(Market, LPPosition), ErrorCode>(
                    (
                        created_market(gs, creator, question, initial_liquidity, close_time),
                        created_lp_position(gs, creator, initial_liquidity),
                    ),
                )
                &&& final(global_state).market_counter == gs.market_counter + 1
            }
        }),
        r matches Ok(created) ==> created.0.wf() && created.0.balanced() == (initial_liquidity
            % 2 == 0),
{
    if creator_balance == 0 {
        return Err(ErrorCode::InsufficientBalance);
    }
    if initial_liquidity == 0 {
        return Err(ErrorCode::InvalidLiquidity);
    }
    if initial_liquidity < MIN_LIQUIDITY {
        return Err(ErrorCode::LiquidityTooLow);
    }
    if close_time <= current_time {
        return Err(ErrorCode::InvalidCloseTime);
    }
    if question[0] == 0 {
        return Err(ErrorCode::EmptyQuestion);
    }

    global_state.market_counter = global_state.market_counter + 1;

    let half: u64 = initial_liquidity / 2;
    let market = Market {
        market_id: global_state.market_counter,
        question,
        creator,
        resolver: creator,
        yes_pool: half,
        no_pool: half,
        total_liquidity: initial_liquidity,
        state: MarketState::Active,
        outcome: None,
        close_time,
        resolution_time: None,
    };
    let lp_position = LPPosition {
        lp_provider: creator,
        market: market.market_id,
        liquidity_provided: initial_liquidity,
        fees_earned: 0,
        fees_claimed: false,
        fees_claimed_amount: 0,
    };
    Ok((market, lp_position))
}

} // verus!
