use vstd::prelude::*;
use crate::errors::ErrorCode;
use crate::fees::{lp_fee_of, net_bet_of, protocol_fee_of, split_fees};
use crate::state::{GlobalState, LPPosition, Market, MarketState, Position};

verus! {

/// Scale of the informational entry odds: a fixed-point probability with
/// nine decimal places.
pub const ODDS_SCALE: u64 = 1_000_000_000;

/// The chosen side's pool.
pub open spec fn side_pool_of(m: Market, side: bool) -> u64 {
    if side {
        m.yes_pool
    } else {
        m.no_pool
    }
}

/// Implied probability of the chosen side before the bet moves the pools:
/// its pool's share of both pools, scaled by 10^9.  Informational only.
pub open spec fn entry_odds_of(m: Market, side: bool) -> int {
    side_pool_of(m, side) * ODDS_SCALE / (m.yes_pool + m.no_pool)
}

/// The odds computation multiplies the side's pool by the scale in 64 bits;
/// a pool beyond this bound overflows it.
pub open spec fn odds_overflow(m: Market, side: bool) -> bool {
    side_pool_of(m, side) * ODDS_SCALE > u64::MAX
}

/// Whether adding the bet to the pools or crediting the fee overflows any of
/// the 64-bit balances it touches.
pub open spec fn pools_overflow(m: Market, lp: LPPosition, side: bool, net: int, lp_fee: int) -> bool {
    ||| side_pool_of(m, side) + net > u64::MAX
    ||| m.total_liquidity + net > u64::MAX
    ||| lp.fees_earned + lp_fee > u64::MAX
}

/// The market after a successful bet: the net stake enters the chosen side's
/// pool and the total liquidity; nothing else moves.
pub open spec fn market_after_bet(m: Market, side: bool, net: int) -> Market {
    Market {
        yes_pool: if side { (m.yes_pool + net) as u64 } else { m.yes_pool },
        no_pool: if side { m.no_pool } else { (m.no_pool + net) as u64 },
        total_liquidity: (m.total_liquidity + net) as u64,
        ..m
    }
}

/// The position after a successful bet: created with the net stake and the
/// entry odds if the slot was empty, otherwise the net stake is merged into
/// the existing stake on the same side.
pub open spec fn position_after_bet(
    pos: Position,
    user: u64,
    market_id: u64,
    side: bool,
    net: int,
    odds: int,
) -> Position {
    if pos.amount == 0 {
        Position {
            user,
            market: market_id,
            side,
            amount: net as u64,
            entry_odds: odds as u64,
            claimed: false,
        }
    } else {
        Position { amount: (pos.amount + net) as u64, ..pos }
    }
}

/// What a successful bet instructs the platform to move and record: the
/// treasury's fee share and the net stake are transferred out of the
/// bettor's account (both, or the whole operation fails); the liquidity
/// provider's share and the entry odds are bookkeeping.
#[derive(Clone, Copy, PartialEq, Eq, Structural, Debug)]
pub struct BetReceipt {
    /// Transfer from the bettor to the protocol treasury.
    pub protocol_fee: u64,
    /// Transfer from the bettor to the market's escrow.
    pub net_bet: u64,
    /// Accrued to the market's liquidity position; stays in escrow.
    pub lp_fee: u64,
    /// Implied probability of the chosen side at this bet, scaled by 10^9.
    pub entry_odds: u64,
}

/// Place a bet of `amount` on `side` of the market.  Validates the market's
/// state and close time, deducts the fee, records the entry odds, moves the
/// net stake into the chosen pool, accrues the provider's fee share, and
/// creates or grows the bettor's position.  Any failure, including overflow
/// of any checked operation, leaves every entity unchanged.
pub fn place_bet(
    global_state: &GlobalState,
    market: &mut Market,
    lp_position: &mut LPPosition,
    position: &mut Position,
    user: u64,
    side: bool,
    amount: u64,
    current_time: i64,
) -> (r: Result<BetReceipt, ErrorCode>)
    requires
        global_state.wf(),
        old(market).wf(),
        amount > 0,
    ensures
        final(market).wf(),
        old(market).balanced() ==> final(market).balanced(),
        r is Err ==> *final(market) == *old(market) && *final(lp_position) == *old(lp_position)
            && *final(position) == *old(position),
        ({
            let m = *old(market);
            let lp = *old(lp_position);
            let pos = *old(position);
            let rate = global_state.fee_rate;
            let net = net_bet_of(amount, rate);
            let lpf = lp_fee_of(amount, rate);
            if m.state != MarketState::Active {
                r == Err::<BetReceipt, ErrorCode>(ErrorCode::MarketNotActive)
            } else if current_time >= m.close_time {
                r == Err::<BetReceipt, ErrorCode>(ErrorCode::MarketClosed)
            } else if odds_overflow(m, side) || pools_overflow(m, lp, side, net, lpf) {
                r == Err::<BetReceipt, ErrorCode>(ErrorCode::Overflow)
            } else if pos.amount > 0 && pos.side != side {
                r == Err::<BetReceipt, ErrorCode>(ErrorCode::CannotBetBothSides)
            } else if pos.amount > 0 && pos.amount + net > u64::MAX {
                r == Err::<BetReceipt, ErrorCode>(ErrorCode::Overflow)
            } else {
                &&& r == Ok::<BetReceipt, ErrorCode>(
                    BetReceipt {
                        protocol_fee: protocol_fee_of(amount, rate) as u64,
                        net_bet: net as u64,
                        lp_fee: lpf as u64,
                        entry_odds: entry_odds_of(m, side) as u64,
                    },
                )
                &&& *final(market) == market_after_bet(m, side, net)
                &&& *final(lp_position) == (LPPosition {
                    fees_earned: (lp.fees_earned + lpf) as u64,
                    ..lp
                })
                &&& *final(position) == position_after_bet(
                    pos,
                    user,
                    m.market_id,
                    side,
                    net,
                    entry_odds_of(m, side),
                )
            }
        }),
        // A position's side, once set by a first bet, never changes.
        old(position).amount > 0 ==> final(position).side == old(position).side,
        // The cumulative claimed fee total is untouched by betting.
        final(lp_position).fees_claimed_amount == old(lp_position).fees_claimed_amount,
        final(lp_position).fees_earned >= old(lp_position).fees_earned,
        // Conservation: a successful bet moves the pools exactly as one step
        // of the bookkeeping model does.
        r is Ok ==> (
        final(market).yes_pool as int,
        final(market).no_pool as int,
        final(market).total_liquidity as int,
        ) == crate::laws::apply_bet(
            (old(market).yes_pool as int, old(market).no_pool as int, old(market).total_liquidity as int),
            (side, net_bet_of(amount, global_state.fee_rate)),
        ),
{
    if !matches!(market.state, MarketState::Active) {
        return Err(ErrorCode::MarketNotActive);
    }
    if current_time >= market.close_time {
        return Err(ErrorCode::MarketClosed);
    }

    let fees = split_fees(amount, global_state.fee_rate);
    let net_bet = fees.net_bet;

    // The pools sum to at most the total liquidity, so this cannot overflow.
    let total_pool: u64 = market.yes_pool + market.no_pool;
    let side_pool: u64 = if side {
        market.yes_pool
    } else {
        market.no_pool
    };

    // Entry odds, from the pools as they stand before this bet.
    if side_pool > u64::MAX / ODDS_SCALE {
        return Err(ErrorCode::Overflow);
    }
    let entry_odds: u64 = side_pool * ODDS_SCALE / total_pool;

    // Check every remaining addition before mutating anything, so that a
    // failure partway leaves no partial update behind.
    if side_pool > u64::MAX - net_bet {
        return Err(ErrorCode::Overflow);
    }
    if market.total_liquidity > u64::MAX - net_bet {
        return Err(ErrorCode::Overflow);
    }
    if lp_position.fees_earned > u64::MAX - fees.lp_fee {
        return Err(ErrorCode::Overflow);
    }
    if position.amount > 0 {
        if position.side != side {
            return Err(ErrorCode::CannotBetBothSides);
        }
        if position.amount > u64::MAX - net_bet {
            return Err(ErrorCode::Overflow);
        }
    }

    if side {
        market.yes_pool = market.yes_pool + net_bet;
    } else {
        market.no_pool = market.no_pool + net_bet;
    }
    market.total_liquidity = market.total_liquidity + net_bet;
    lp_position.fees_earned = lp_position.fees_earned + fees.lp_fee;

    if position.amount == 0 {
        position.user = user;
        position.market = market.market_id;
        position.side = side;
        position.amount = net_bet;
        position.entry_odds = entry_odds;
        position.claimed = false;
    } else {
        position.amount = position.amount + net_bet;
    }

    Ok(
        BetReceipt {
            protocol_fee: fees.protocol_fee,
            net_bet,
            lp_fee: fees.lp_fee,
            entry_odds,
        },
    )
}

} // verus!
