use vstd::prelude::*;
use vstd::arithmetic::div_mod::{
    lemma_div_is_ordered,
    lemma_div_multiples_vanish,
    lemma_div_pos_is_pos,
    lemma_fundamental_div_mod,
    lemma_mod_bound,
};
use vstd::arithmetic::mul::{lemma_mul_inequality, lemma_mul_is_distributive_add_other_way};
use crate::claim_payout::{claim_allowed, winner_share_of};
use crate::resolve_market::{resolve_accepted, resolved_market};
use crate::state::{Market, Position};

verus! {

/// Pool bookkeeping as a mathematical triple (yes pool, no pool, total
/// liquidity), and one bet as (side, net stake) with the net stake joining
/// the chosen pool and the total.  This is exactly what `place_bet`'s
/// contract says a successful bet does to the market.
pub open spec fn apply_bet(p: (int, int, int), b: (bool, int)) -> (int, int, int) {
    if b.0 {
        (p.0 + b.1, p.1, p.2 + b.1)
    } else {
        (p.0, p.1 + b.1, p.2 + b.1)
    }
}

/// The pools after a whole sequence of bets.
pub open spec fn apply_bets(p: (int, int, int), bets: Seq<(bool, int)>) -> (int, int, int)
    decreases bets.len(),
{
    if bets.len() == 0 {
        p
    } else {
        apply_bet(apply_bets(p, bets.drop_last()), bets.last())
    }
}

/// The sum of the net stakes of a sequence of bets.
pub open spec fn sum_net_bets(bets: Seq<(bool, int)>) -> int
    decreases bets.len(),
{
    if bets.len() == 0 {
        0
    } else {
        sum_net_bets(bets.drop_last()) + bets.last().1
    }
}

/// Conservation: over any sequence of bets, the total liquidity grows by
/// exactly the sum of the net stakes, and if the pools summed to the total
/// liquidity to begin with, they still do afterwards.
pub proof fn lemma_conservation(p: (int, int, int), bets: Seq<(bool, int)>)
    ensures
        apply_bets(p, bets).2 == p.2 + sum_net_bets(bets),
        p.0 + p.1 == p.2 ==> apply_bets(p, bets).0 + apply_bets(p, bets).1 == apply_bets(
            p,
            bets,
        ).2,
    decreases bets.len(),
{
    if bets.len() > 0 {
        lemma_conservation(p, bets.drop_last());
    }
}

/// Liquidity-provider fee accounting as a mathematical pair (accrued fees,
/// cumulative claimed total), and one accounting event: `(true, f)` accrues
/// the fee share `f` of one bet, `(false, _)` claims, moving the whole
/// accrued balance into the cumulative total.  This is exactly what the
/// contracts of `place_bet` and `claim_lp_fees` say the two operations do to
/// the liquidity position.
pub open spec fn apply_fee_event(lp: (int, int), e: (bool, int)) -> (int, int) {
    if e.0 {
        (lp.0 + e.1, lp.1)
    } else {
        (0, lp.1 + lp.0)
    }
}

/// The fee accounts after a whole sequence of events.
pub open spec fn apply_fee_events(lp: (int, int), events: Seq<(bool, int)>) -> (int, int)
    decreases events.len(),
{
    if events.len() == 0 {
        lp
    } else {
        apply_fee_event(apply_fee_events(lp, events.drop_last()), events.last())
    }
}

/// Fee monotonicity, one step: an accrual never decreases the accrued
/// balance, a claim zeroes it, and no event ever decreases the cumulative
/// claimed total.
pub proof fn lemma_fee_step(lp: (int, int), e: (bool, int))
    requires
        lp.0 >= 0,
        e.1 >= 0,
    ensures
        e.0 ==> apply_fee_event(lp, e).0 >= lp.0,
        !e.0 ==> apply_fee_event(lp, e).0 == 0,
        apply_fee_event(lp, e).1 >= lp.1,
{
}

/// Fee monotonicity, over any sequence of events with non-negative accruals:
/// the accrued balance stays non-negative and the cumulative claimed total
/// never decreases.
pub proof fn lemma_fee_monotonicity(lp: (int, int), events: Seq<(bool, int)>)
    requires
        lp.0 >= 0,
        forall|i: int| 0 <= i < events.len() ==> events[i].1 >= 0,
    ensures
        apply_fee_events(lp, events).0 >= 0,
        apply_fee_events(lp, events).1 >= lp.1,
    decreases events.len(),
{
    if events.len() > 0 {
        lemma_fee_monotonicity(lp, events.drop_last());
    }
}

/// Resolution is one-way: whatever a successful resolution produced, no
/// further resolution attempt on it is accepted, by any caller at any time.
pub proof fn lemma_resolve_at_most_once(
    m: Market,
    outcome: bool,
    t: i64,
    caller2: u64,
    t2: i64,
)
    ensures
        !resolve_accepted(resolved_market(m, outcome, t), caller2, t2),
{
}

/// A resolved market accepts no further bets: `place_bet`'s contract rejects
/// any market whose state is not `Active` with `MarketNotActive`, and a
/// successful resolution leaves exactly such a market behind.
pub proof fn lemma_no_bets_after_resolution(m: Market, outcome: bool, t: i64)
    ensures
        resolved_market(m, outcome, t).state != crate::state::MarketState::Active,
{
}

/// Payouts are claimed at most once: whatever position a successful claim
/// leaves behind (its only change is the claimed mark), no further claim on
/// it is allowed, on any market.
pub proof fn lemma_claim_at_most_once(m2: Market, pos: Position)
    ensures
        !claim_allowed(m2, Position { claimed: true, ..pos }),
{
}

/// Flooring loses, never gains: dividing two summands separately yields at
/// most what dividing their sum does.
proof fn lemma_div_sum_le(a: int, b: int, d: int)
    requires
        0 <= a,
        0 <= b,
        0 < d,
    ensures
        a / d + b / d <= (a + b) / d,
{
    lemma_fundamental_div_mod(a, d);
    lemma_fundamental_div_mod(b, d);
    lemma_fundamental_div_mod(a + b, d);
    lemma_mod_bound(a, d);
    lemma_mod_bound(b, d);
    lemma_mod_bound(a + b, d);
    let k = (a + b) / d - a / d - b / d;
    assert(d * k == a % d + b % d - (a + b) % d) by (nonlinear_arith)
        requires
            a == d * (a / d) + a % d,
            b == d * (b / d) + b % d,
            a + b == d * ((a + b) / d) + (a + b) % d,
            k == (a + b) / d - a / d - b / d,
    ;
    assert(k >= 0) by (nonlinear_arith)
        requires
            d > 0,
            d * k > -d,
    ;
}

/// The sum of a sequence of winning positions' stakes.
pub open spec fn sum_stakes(stakes: Seq<u64>) -> int
    decreases stakes.len(),
{
    if stakes.len() == 0 {
        0
    } else {
        sum_stakes(stakes.drop_last()) + stakes.last()
    }
}

/// The sum of the winners' shares of the losing pool, one share per stake,
/// each floored as `claim_payout` floors it.
pub open spec fn sum_winner_shares(stakes: Seq<u64>, losing_pool: u64, winning_pool: u64) -> int
    decreases stakes.len(),
{
    if stakes.len() == 0 {
        0
    } else {
        sum_winner_shares(stakes.drop_last(), losing_pool, winning_pool) + winner_share_of(
            stakes.last(),
            losing_pool,
            winning_pool,
        )
    }
}

/// Shares are sub-additive in the stakes: together, winning positions never
/// draw more of the losing pool than one position holding all their stakes
/// would.
proof fn lemma_shares_below_pooled_stake(stakes: Seq<u64>, losing_pool: u64, winning_pool: u64)
    requires
        winning_pool >= 1,
    ensures
        0 <= sum_stakes(stakes),
        sum_winner_shares(stakes, losing_pool, winning_pool) <= sum_stakes(stakes) * losing_pool
            / (winning_pool as int),
    decreases stakes.len(),
{
    if stakes.len() == 0 {
        lemma_div_pos_is_pos(0, winning_pool as int);
    } else {
        let rest = stakes.drop_last();
        let t = stakes.last();
        lemma_shares_below_pooled_stake(rest, losing_pool, winning_pool);
        lemma_mul_inequality(0, sum_stakes(rest), losing_pool as int);
        lemma_div_sum_le(
            sum_stakes(rest) * losing_pool,
            t * losing_pool,
            winning_pool as int,
        );
        lemma_mul_is_distributive_add_other_way(
            losing_pool as int,
            sum_stakes(rest),
            t as int,
        );
    }
}

/// Payout conservation: the losing pool covers every winner's share.  As
/// long as the winners' stakes sum to no more than the winning pool — and
/// they do, since the winning pool is nothing but the accumulated winning
/// stakes — the shares paid on top of the returned principals sum to at most
/// the losing pool; what the flooring leaves over stays in escrow.
pub proof fn lemma_losing_pool_covers_all_shares(
    stakes: Seq<u64>,
    losing_pool: u64,
    winning_pool: u64,
)
    requires
        winning_pool >= 1,
        sum_stakes(stakes) <= winning_pool,
    ensures
        sum_winner_shares(stakes, losing_pool, winning_pool) <= losing_pool,
{
    lemma_shares_below_pooled_stake(stakes, losing_pool, winning_pool);
    lemma_mul_inequality(sum_stakes(stakes), winning_pool as int, losing_pool as int);
    lemma_div_is_ordered(
        sum_stakes(stakes) * losing_pool,
        (winning_pool as int) * (losing_pool as int),
        winning_pool as int,
    );
    lemma_div_multiples_vanish(losing_pool as int, winning_pool as int);
}

} // verus!
