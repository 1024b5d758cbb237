use vstd::prelude::*;
use vstd::arithmetic::div_mod::{
    lemma_div_is_ordered,
    lemma_div_multiples_vanish,
    lemma_fundamental_div_mod,
    lemma_remainder_lower,
    lemma_remainder_upper,
};
use vstd::arithmetic::mul::lemma_mul_inequality;

verus! {

/// Basis points in a whole: fee rates are expressed as parts of 10000.
pub const FEE_DENOMINATOR: u64 = 10_000;

/// The protocol treasury's share of every fee, in percent.
pub const PROTOCOL_FEE_PERCENT: u64 = 20;

/// The liquidity provider's share of every fee, in percent.
pub const LP_FEE_PERCENT: u64 = 80;

/// Total fee charged on a bet: the gross amount times the fee rate in basis
/// points, floored.
pub open spec fn total_fee_of(amount: u64, fee_rate: u16) -> int {
    amount * fee_rate / (FEE_DENOMINATOR as int)
}

/// The treasury's share of the total fee: 20%, floored independently.
pub open spec fn protocol_fee_of(amount: u64, fee_rate: u16) -> int {
    total_fee_of(amount, fee_rate) * (PROTOCOL_FEE_PERCENT as int) / 100
}

/// The liquidity provider's share of the total fee: 80%, floored
/// independently.  Together with the treasury's share this may fall short of
/// the total fee by up to one unit; the residual stays in escrow.
pub open spec fn lp_fee_of(amount: u64, fee_rate: u16) -> int {
    total_fee_of(amount, fee_rate) * (LP_FEE_PERCENT as int) / 100
}

/// What a bet adds to its side's pool: the gross amount less the total fee.
pub open spec fn net_bet_of(amount: u64, fee_rate: u16) -> int {
    amount - total_fee_of(amount, fee_rate)
}

/// The fee never exceeds the amount it is charged on, as long as the fee
/// rate is at most 100%.
pub proof fn lemma_fee_le_amount(amount: u64, fee_rate: u16)
    requires
        fee_rate <= 10000,
    ensures
        0 <= total_fee_of(amount, fee_rate) <= amount,
{
    lemma_mul_inequality(fee_rate as int, 10000, amount as int);
    lemma_div_is_ordered(amount * fee_rate, amount * 10000, 10000);
    lemma_div_multiples_vanish(amount as int, 10000);
}

/// The two independently floored shares never exceed the fee they split.
pub proof fn lemma_fee_split_bounded(amount: u64, fee_rate: u16)
    requires
        fee_rate <= 10000,
    ensures
        0 <= protocol_fee_of(amount, fee_rate),
        0 <= lp_fee_of(amount, fee_rate),
        protocol_fee_of(amount, fee_rate) + lp_fee_of(amount, fee_rate) <= total_fee_of(
            amount,
            fee_rate,
        ),
{
    let t = total_fee_of(amount, fee_rate);
    lemma_fee_le_amount(amount, fee_rate);
    lemma_fundamental_div_mod(t * 20, 100);
    lemma_fundamental_div_mod(t * 80, 100);
    lemma_remainder_lower(t * 20, 100);
    lemma_remainder_upper(t * 20, 100);
    lemma_remainder_lower(t * 80, 100);
    lemma_remainder_upper(t * 80, 100);
    assert(t * 20 + t * 80 == t * 100) by (nonlinear_arith);
    lemma_div_is_ordered(0, t * 20, 100);
    lemma_div_is_ordered(0, t * 80, 100);
}

/// The outcome of deducting the fee from one bet's gross amount.
pub struct FeeSplit {
    /// The whole fee charged on the bet.
    pub total_fee: u64,
    /// The treasury's share, transferred out at placement.
    pub protocol_fee: u64,
    /// The liquidity provider's share, accrued to its position.
    pub lp_fee: u64,
    /// What remains of the gross amount and enters the pool.
    pub net_bet: u64,
}

/// Split a bet's gross amount into the fee shares and the net stake.
/// Intermediate products are widened to 128 bits, so no overflow is
/// possible while the fee rate stays within 10000 basis points.
pub fn split_fees(amount: u64, fee_rate: u16) -> (s: FeeSplit)
    requires
        fee_rate <= 10000,
    ensures
        s.total_fee == total_fee_of(amount, fee_rate),
        s.protocol_fee == protocol_fee_of(amount, fee_rate),
        s.lp_fee == lp_fee_of(amount, fee_rate),
        s.net_bet == net_bet_of(amount, fee_rate),
        s.protocol_fee + s.lp_fee <= s.total_fee <= amount,
        s.net_bet + s.total_fee == amount,
{
    proof {
        lemma_fee_le_amount(amount, fee_rate);
        lemma_fee_split_bounded(amount, fee_rate);
    }
    let total_fee_wide: u128 = (amount as u128) * (fee_rate as u128) / (FEE_DENOMINATOR as u128);
    let total_fee: u64 = total_fee_wide as u64;
    let protocol_fee: u64 = ((total_fee as u128) * (PROTOCOL_FEE_PERCENT as u128) / 100) as u64;
    let lp_fee: u64 = ((total_fee as u128) * (LP_FEE_PERCENT as u128) / 100) as u64;
    let net_bet: u64 = amount - total_fee;
    FeeSplit { total_fee, protocol_fee, lp_fee, net_bet }
}

} // verus!
