use vstd::prelude::*;

verus! {

/// Process-wide protocol configuration: the fee rate charged on every bet,
/// the treasury and admin account identifiers, and the last-issued market id.
/// Created once; only market creation mutates it, by bumping the counter.
#[derive(Clone, Copy, PartialEq, Eq, Structural, Debug)]
pub struct GlobalState {
    /// Last-issued market id; strictly increasing.
    pub market_counter: u64,
    /// Fee rate in basis points (at most 10000) applied to every bet's gross
    /// amount.
    pub fee_rate: u16,
    /// Account that receives the protocol's share of every fee.
    pub protocol_treasury: u64,
    /// Account that created the configuration; immutable afterwards.
    pub admin: u64,
}

impl GlobalState {
    /// The fee rate never exceeds 100% (10000 basis points).
    pub open spec fn wf(self) -> bool {
        self.fee_rate <= 10000
    }
}

/// Lifecycle of a market.  Only `Active` and `Resolved` are ever reached;
/// `Closed` and `Finalized` are reserved for future transitions.
#[derive(Clone, Copy, PartialEq, Eq, Structural, Debug)]
pub enum MarketState {
    /// Accepting bets.
    Active,
    /// Past its close time (reserved; closing is a derived check, not a
    /// stored transition).
    Closed,
    /// Outcome submitted; pools are frozen.
    Resolved,
    /// All claims processed (reserved).
    Finalized,
}

/// One binary-outcome market: its pools, lifecycle state, resolution
/// authority and outcome.  Created once; mutated by every bet and by
/// resolution.
#[derive(Clone, Copy, Debug)]
pub struct Market {
    /// Unique id, assigned from the protocol counter at creation.
    pub market_id: u64,
    /// The question being wagered on; only validated non-empty.
    pub question: [u8; 200],
    /// Account that created the market and provided its liquidity.
    pub creator: u64,
    /// Account authorized to resolve the market; the creator, at creation.
    pub resolver: u64,
    /// Accumulated net stake on the YES side.
    pub yes_pool: u64,
    /// Accumulated net stake on the NO side.
    pub no_pool: u64,
    /// Initial liquidity plus the sum of all net bets.
    pub total_liquidity: u64,
    /// Lifecycle state.
    pub state: MarketState,
    /// `None` while active; set exactly once by resolution.
    pub outcome: Option<bool>,
    /// Timestamp after which bets are rejected and resolution is allowed.
    pub close_time: i64,
    /// Timestamp of resolution, once resolved.
    pub resolution_time: Option<i64>,
}

impl Market {
    /// Well-formedness: both pools stay positive, the resolution state and
    /// the outcome agree, and the pools sum to the total liquidity up to the
    /// single unit an odd initial liquidity drops at creation.
    pub open spec fn wf(self) -> bool {
        &&& self.yes_pool >= 1
        &&& self.no_pool >= 1
        &&& self.yes_pool + self.no_pool <= self.total_liquidity
        &&& self.total_liquidity - (self.yes_pool + self.no_pool) <= 1
        &&& (self.state == MarketState::Resolved <==> self.outcome is Some)
    }

    /// The pools account for the total liquidity exactly; holds whenever the
    /// initial liquidity was even, and is preserved by every bet.
    pub open spec fn balanced(self) -> bool {
        self.yes_pool + self.no_pool == self.total_liquidity
    }
}

/// One participant's stake in one market: the chosen side, the cumulative
/// net amount, and whether the payout was already claimed.
#[derive(Clone, Copy, PartialEq, Eq, Structural, Debug)]
pub struct Position {
    /// The participant.
    pub user: u64,
    /// The market bet on (its id).
    pub market: u64,
    /// Chosen side: `true` is YES.  Fixed at the first bet.
    pub side: bool,
    /// Cumulative net (post-fee) stake.  Zero means the slot is still empty.
    pub amount: u64,
    /// Implied probability of the chosen side at the first bet, scaled by
    /// 10^9.  Informational only; not used in settlement.
    pub entry_odds: u64,
    /// Set by a successful payout claim; never cleared.
    pub claimed: bool,
}

impl Position {
    /// A fresh, empty position slot for a (user, market) pair: no stake yet.
    pub fn new(user: u64, market: u64) -> (p: Position)
        ensures
            p == (Position {
                user,
                market,
                side: false,
                amount: 0,
                entry_odds: 0,
                claimed: false,
            }),
    {
        Position { user, market, side: false, amount: 0, entry_odds: 0, claimed: false }
    }
}

/// The liquidity provider's stake in one market and its accrued, unclaimed
/// fee income.  Created with the market; every bet accrues fees to it.
#[derive(Clone, Copy, PartialEq, Eq, Structural, Debug)]
pub struct LPPosition {
    /// The provider (the market's creator).
    pub lp_provider: u64,
    /// The market provided for (its id).
    pub market: u64,
    /// Liquidity deposited at creation; fixed.
    pub liquidity_provided: u64,
    /// Accrued, not yet withdrawn fee income.
    pub fees_earned: u64,
    /// Whether any fees were ever claimed.
    pub fees_claimed: bool,
    /// Cumulative total ever withdrawn; non-decreasing.
    pub fees_claimed_amount: u64,
}

} // verus!
