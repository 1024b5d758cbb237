use vstd::prelude::*;

verus! {

/// Every way a settlement operation can fail.  Each failure aborts the whole
/// operation: no entity is partially updated.
#[derive(Clone, Copy, PartialEq, Eq, Structural, Debug)]
pub enum ErrorCode {
    /// Caller has no balance to pay with.
    InsufficientBalance,
    /// The market is not in the `Active` state.
    MarketNotActive,
    /// The market's close time has passed; no more bets are accepted.
    MarketClosed,
    /// The market's close time has not passed yet; it cannot be resolved.
    MarketStillOpen,
    /// Only the market's designated resolver may resolve it.
    UnauthorizedResolver,
    /// The market has already been resolved.
    AlreadyResolved,
    /// The market has not been resolved yet.
    NotResolved,
    /// The position's payout has already been claimed.
    AlreadyClaimed,
    /// The position is on the losing side and has nothing to claim.
    PositionLost,
    /// The market's escrow does not hold enough to pay out.
    InsufficientVaultBalance,
    /// A checked integer operation overflowed.
    Overflow,
    /// A participant may not hold stakes on both sides of one market.
    CannotBetBothSides,
    /// The liquidity position has no accrued fees to claim.
    NoFeesToClaim,
    /// Initial liquidity must be greater than zero.
    InvalidLiquidity,
    /// A market's close time must be strictly in the future.
    InvalidCloseTime,
    /// A market's question must be non-empty.
    EmptyQuestion,
    /// Initial liquidity is below the required minimum.
    LiquidityTooLow,
}

} // verus!
