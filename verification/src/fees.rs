//! Fee arithmetic: the trading fee on a swap output, the rebate granted to
//! rebalancing trades, and the split of the net fee between the protocol and
//! the liquidity providers. Every division rounds down.

use vstd::prelude::*;
use crate::math::lemma_floor_div_brackets;

verus! {

/// Fee rates are given in parts per million.
pub const MILLION: u64 = 1_000_000;

/// The protocol's share of a fee is given in parts per thousand.
pub const THOUSAND: u64 = 1000;

/// Rebate ratios and rebate percentages are given in parts per hundred.
pub const HUNDRED: u64 = 100;

/// The largest amount whose fee product fits in 64 bits at every rate of
/// at most one million: the 64-bit maximum divided by one million.
pub const MAX_FEE_BASE: u64 = 18_446_744_073_709;

/// The largest trade whose rebate ratio is computable whatever the gap to
/// the target: the 64-bit maximum divided by one hundred.
pub const MAX_REBATE_INPUT: u64 = 184_467_440_737_095_516;

/// The trading fee on `amount` at `fee_millionth` parts per million.
pub open spec fn fee_of(amount: int, fee_millionth: int) -> int {
    amount * fee_millionth / 1_000_000
}

/// The part of `fee` that goes to the protocol.
pub open spec fn protocol_cut(fee: int, share_thousandth: int) -> int {
    fee * share_thousandth / 1000
}

/// The smaller of two integers.
pub open spec fn min_int(a: int, b: int) -> int {
    if a <= b {
        a
    } else {
        b
    }
}

/// The part of a trade, in percent, that moves the pool toward its target:
/// the gap between the current reserve and the target, capped by the trade
/// size, relative to the trade size.
pub open spec fn rebate_ratio_of(input: int, target: int, current: int) -> int {
    min_int(input, target - min_int(target, current)) * 100 / input
}

/// The rebate on `fee` for a trade with the given rebate ratio.
pub open spec fn rebate_of(fee: int, rebate_ratio: int, rebate_percentage: int) -> int {
    fee * rebate_ratio / 100 * rebate_percentage / 100
}

/// What a swap pays out once its net fee is known:
/// `(output_after_fee, protocol_fee, lp_fee)`, or `None` where the fee
/// exceeds the output, the protocol's product leaves the 64-bit range, or the
/// protocol's cut exceeds the fee.
pub open spec fn settlement(output_before_fee: int, fee: int, share_thousandth: int) -> Option<
    (int, int, int),
> {
    if fee > output_before_fee || fee * share_thousandth > u64::MAX || protocol_cut(
        fee,
        share_thousandth,
    ) > fee {
        None
    } else {
        Some(
            (
                output_before_fee - fee,
                protocol_cut(fee, share_thousandth),
                fee - protocol_cut(fee, share_thousandth),
            ),
        )
    }
}

/// Computes the trading fee on `amount`. `None` exactly when the product
/// `amount * fee_millionth` leaves the 64-bit range.
pub fn trading_fee(amount: u64, fee_millionth: u64) -> (r: Option<u64>)
    ensures
        r is Some <==> amount * fee_millionth <= u64::MAX,
        r matches Some(fee) ==> fee == fee_of(amount as int, fee_millionth as int),
{
    match amount.checked_mul(fee_millionth) {
        Some(scaled) => Some(scaled / MILLION),
        None => None,
    }
}

/// Computes the rebate ratio of a trade of size `input` against a reserve
/// that stands at `current` and should stand at `target`. `None` exactly
/// when the capped gap times one hundred leaves the 64-bit range.
pub fn rebate_ratio(input: u64, target: u64, current: u64) -> (r: Option<u64>)
    requires
        input > 0,
    ensures
        r is Some <==> min_int(input as int, target - min_int(target as int, current as int))
            * 100 <= u64::MAX,
        r matches Some(ratio) ==> ratio == rebate_ratio_of(
            input as int,
            target as int,
            current as int,
        ) && ratio <= 100,
{
    let reached: u64 = if target <= current {
        target
    } else {
        current
    };
    let gap: u64 = target - reached;
    let capped: u64 = if input <= gap {
        input
    } else {
        gap
    };
    match capped.checked_mul(HUNDRED) {
        Some(scaled) => {
            let ratio = scaled / input;
            proof {
                lemma_floor_div_brackets(scaled as int, input as int);
                assert(ratio <= 100) by (nonlinear_arith)
                    requires
                        input * ratio <= scaled,
                        scaled == capped * 100,
                        capped <= input,
                        input > 0,
                        ratio >= 0,
                ;
            }
            Some(ratio)
        },
        None => None,
    }
}

/// Whether the two products inside `rebate_of` stay in the 64-bit range.
pub open spec fn rebate_fits(fee: int, rebate_ratio: int, rebate_percentage: int) -> bool {
    &&& fee * rebate_ratio <= u64::MAX
    &&& fee * rebate_ratio / 100 * rebate_percentage <= u64::MAX
}

/// Computes the rebate on `fee`. `None` exactly when one of its two
/// products leaves the 64-bit range.
pub fn rebate(fee: u64, rebate_ratio: u64, rebate_percentage: u64) -> (r: Option<u64>)
    ensures
        r is Some <==> rebate_fits(fee as int, rebate_ratio as int, rebate_percentage as int),
        r matches Some(amount) ==> amount == rebate_of(
            fee as int,
            rebate_ratio as int,
            rebate_percentage as int,
        ),
{
    match fee.checked_mul(rebate_ratio) {
        Some(weighted) => {
            match (weighted / HUNDRED).checked_mul(rebate_percentage) {
                Some(scaled) => Some(scaled / HUNDRED),
                None => None,
            }
        },
        None => None,
    }
}

/// Takes the net fee out of a swap output and splits it between the
/// protocol and the liquidity providers.
pub fn settle(output_before_fee: u64, fee: u64, share_thousandth: u64) -> (r: Option<
    (u64, u64, u64),
>)
    ensures
        r is Some <==> settlement(
            output_before_fee as int,
            fee as int,
            share_thousandth as int,
        ) is Some,
        r matches Some((output_after_fee, protocol_fee, lp_fee)) ==> {
            &&& settlement(output_before_fee as int, fee as int, share_thousandth as int) == Some(
                (output_after_fee as int, protocol_fee as int, lp_fee as int),
            )
            &&& output_after_fee + fee == output_before_fee
            &&& protocol_fee + lp_fee == fee
        },
{
    if fee > output_before_fee {
        return None;
    }
    let output_after_fee = output_before_fee - fee;
    match fee.checked_mul(share_thousandth) {
        Some(scaled) => {
            let protocol_fee = scaled / THOUSAND;
            if protocol_fee > fee {
                None
            } else {
                Some((output_after_fee, protocol_fee, fee - protocol_fee))
            }
        },
        None => None,
    }
}

/// A fee never exceeds the amount it is charged on while the rate is at
/// most one million parts per million.
pub proof fn lemma_fee_at_most_amount(amount: int, fee_millionth: int)
    requires
        0 <= amount,
        0 <= fee_millionth <= 1_000_000,
    ensures
        0 <= amount * fee_millionth <= amount * 1_000_000,
        0 <= fee_of(amount, fee_millionth) <= amount,
{
    let scaled = amount * fee_millionth;
    assert(0 <= scaled <= amount * 1_000_000) by (nonlinear_arith)
        requires
            0 <= amount,
            0 <= fee_millionth <= 1_000_000,
            scaled == amount * fee_millionth,
    ;
    lemma_floor_div_brackets(scaled, 1_000_000);
}

/// The protocol's cut never exceeds the fee while its share is at most one
/// thousand parts per thousand.
pub proof fn lemma_cut_at_most_fee(fee: int, share_thousandth: int)
    requires
        0 <= fee,
        0 <= share_thousandth <= 1000,
    ensures
        0 <= fee * share_thousandth <= fee * 1000,
        0 <= protocol_cut(fee, share_thousandth) <= fee,
{
    let scaled = fee * share_thousandth;
    assert(0 <= scaled <= fee * 1000) by (nonlinear_arith)
        requires
            0 <= fee,
            0 <= share_thousandth <= 1000,
            scaled == fee * share_thousandth,
    ;
    lemma_floor_div_brackets(scaled, 1000);
}

/// A rebate never exceeds the fee it is granted on while the ratio and the
/// percentage are at most one hundred.
pub proof fn lemma_rebate_at_most_fee(fee: int, rebate_ratio: int, rebate_percentage: int)
    requires
        0 <= fee,
        0 <= rebate_ratio <= 100,
        0 <= rebate_percentage <= 100,
    ensures
        0 <= fee * rebate_ratio <= fee * 100,
        0 <= fee * rebate_ratio / 100 * rebate_percentage <= fee * 100,
        0 <= rebate_of(fee, rebate_ratio, rebate_percentage) <= fee,
{
    let weighted = fee * rebate_ratio;
    assert(0 <= weighted <= fee * 100) by (nonlinear_arith)
        requires
            0 <= fee,
            0 <= rebate_ratio <= 100,
            weighted == fee * rebate_ratio,
    ;
    lemma_floor_div_brackets(weighted, 100);
    let part = weighted / 100;
    assert(0 <= part <= fee);
    let scaled = part * rebate_percentage;
    assert(0 <= scaled <= fee * 100) by (nonlinear_arith)
        requires
            0 <= part <= fee,
            0 <= rebate_percentage <= 100,
            scaled == part * rebate_percentage,
    ;
    lemma_floor_div_brackets(scaled, 100);
}

} // verus!
