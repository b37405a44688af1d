//! What holds of every quote on a flow-derived pool.

use vstd::prelude::*;
use crate::curve::{
    lemma_output_monotone, lemma_output_within_coordinate, lemma_shift_keeps_invariant,
    lemma_zero_input_gives_zero_output, shifted_coord,
};
use crate::fees::{
    fee_of, lemma_cut_at_most_fee, lemma_fee_at_most_amount, protocol_cut, MAX_FEE_BASE,
};
use crate::math::lemma_floor_div_brackets;
use crate::v3::errors::ObricError;
use crate::v3::state::SSTradingPair;

verus! {

/// Whatever a trade pays out adds up: the output after fees and the two fee
/// parts make up the output before fees exactly, the two fee parts make up
/// the fee exactly, and the protocol's part is its share of the fee.
pub proof fn lemma_payout_adds_up(pool: SSTradingPair, output_before_fee: int)
    requires
        0 <= output_before_fee <= u64::MAX,
        pool.payout(output_before_fee) is Ok,
    ensures
        ({
            let (output_after_fee, protocol_fee, lp_fee) = pool.payout(output_before_fee)->Ok_0;
            let fee = fee_of(output_before_fee, pool.fee_millionth as int);
            &&& output_after_fee + fee == output_before_fee
            &&& protocol_fee + lp_fee == fee
            &&& protocol_fee == protocol_cut(fee, pool.protocol_fee_share_thousandth as int)
        }),
{
    let fee = fee_of(output_before_fee, pool.fee_millionth as int);
    let scaled = output_before_fee * pool.fee_millionth;
    assert(0 <= scaled) by (nonlinear_arith)
        requires
            0 <= output_before_fee,
            0 <= pool.fee_millionth,
            scaled == output_before_fee * pool.fee_millionth,
    ;
    lemma_floor_div_brackets(scaled, 1_000_000);
    let weighted = fee * pool.protocol_fee_share_thousandth;
    assert(0 <= weighted) by (nonlinear_arith)
        requires
            0 <= fee,
            0 <= pool.protocol_fee_share_thousandth,
            weighted == fee * pool.protocol_fee_share_thousandth,
    ;
    lemma_floor_div_brackets(weighted, 1000);
}

/// The coordinates a quote starts from lie exactly on the curve whose
/// invariant the quote uses, and after a trade the new point lies on that
/// curve up to the rounding of one unit of the outgoing coordinate.
pub proof fn lemma_invariant_conserved(pool: SSTradingPair, input_x: int)
    requires
        pool.quoting_values_fit(),
        0 <= input_x,
        0 < pool.current_x_k() + input_x,
    ensures
        pool.pool_values().big_k == pool.pool_values().current_x_k
            * pool.pool_values().current_y_k,
        ({
            let big_k = pool.pool_values().big_k;
            let new_x_k = pool.current_x_k() + input_x;
            let new_y_k = shifted_coord(big_k, pool.current_x_k(), input_x);
            new_x_k * new_y_k <= big_k < new_x_k * (new_y_k + 1)
        }),
{
    let x_k = pool.current_x_k();
    let y_k = pool.current_y_k();
    assert(0 <= x_k * y_k) by (nonlinear_arith)
        requires
            0 <= x_k,
            0 <= y_k,
    ;
    lemma_shift_keeps_invariant(x_k * y_k, x_k, input_x);
}

/// While the pool rests at its target, holding exactly the target of Y and
/// no net position in X, the invariant a quote recomputes is the invariant
/// that was stored when the target was set.
pub proof fn lemma_invariant_at_equilibrium(pool: SSTradingPair)
    requires
        pool.quoting_values_fit(),
        pool.deposit_y == pool.target_y,
        pool.deposit_x == pool.borrow_x,
        pool.big_k == pool.big_k_of(pool.target_y as int),
    ensures
        pool.pool_values().big_k == pool.big_k,
{
}

/// A sale of nothing is quoted as three zeros wherever the pool has a
/// point on the curve with a positive X coordinate and holds some Y.
pub proof fn lemma_zero_input_x_to_y(pool: SSTradingPair)
    requires
        pool.quoting_values_fit(),
        pool.current_x_k() > 0,
        pool.deposit_y > 0,
    ensures
        pool.quote_x_to_y_spec(0) == Ok::<(u64, u64, u64), ObricError>((0u64, 0u64, 0u64)),
{
    lemma_zero_input_gives_zero_output(pool.current_x_k(), pool.current_y_k());
    assert(pool.output_before_fee_y(0) == 0);
    assert(0 * pool.fee_millionth == 0) by (nonlinear_arith);
    assert(0 * pool.protocol_fee_share_thousandth == 0) by (nonlinear_arith);
}

/// A sale of nothing is quoted as three zeros wherever the pool has a
/// point on the curve with a positive Y coordinate and some X is available.
pub proof fn lemma_zero_input_y_to_x(pool: SSTradingPair)
    requires
        pool.quoting_values_fit(),
        pool.current_y_k() > 0,
        pool.available_x() > 0,
    ensures
        pool.quote_y_to_x_spec(0) == Ok::<(u64, u64, u64), ObricError>((0u64, 0u64, 0u64)),
{
    lemma_zero_input_gives_zero_output(pool.current_y_k(), pool.current_x_k());
    assert(pool.current_y_k() * pool.current_x_k() == pool.current_x_k() * pool.current_y_k())
        by (nonlinear_arith);
    assert(pool.output_before_fee_x(0) == 0);
    assert(0 * pool.fee_millionth == 0) by (nonlinear_arith);
    assert(0 * pool.protocol_fee_share_thousandth == 0) by (nonlinear_arith);
}

/// Fees are conserved by every quote for X into Y: the output after fees
/// plus the fee is the output before fees, and the two fee parts are the fee.
pub proof fn lemma_fee_conservation_x_to_y(pool: SSTradingPair, input_x: int)
    requires
        0 <= input_x,
        pool.quote_x_to_y_spec(input_x) is Ok,
    ensures
        ({
            let (output_after_fee, protocol_fee, lp_fee) = pool.quote_x_to_y_spec(input_x)->Ok_0;
            let output_before_fee = pool.output_before_fee_y(input_x);
            let fee = fee_of(output_before_fee, pool.fee_millionth as int);
            &&& output_after_fee + fee == output_before_fee
            &&& protocol_fee + lp_fee == fee
            &&& output_before_fee < pool.available_y()
        }),
{
    lemma_output_within_coordinate(pool.current_x_k(), pool.current_y_k(), input_x);
    lemma_payout_adds_up(pool, pool.output_before_fee_y(input_x));
}

/// Fees are conserved by every quote for Y into X.
pub proof fn lemma_fee_conservation_y_to_x(pool: SSTradingPair, input_y: int)
    requires
        0 <= input_y,
        pool.quote_y_to_x_spec(input_y) is Ok,
    ensures
        ({
            let (output_after_fee, protocol_fee, lp_fee) = pool.quote_y_to_x_spec(input_y)->Ok_0;
            let output_before_fee = pool.output_before_fee_x(input_y);
            let fee = fee_of(output_before_fee, pool.fee_millionth as int);
            &&& output_after_fee + fee == output_before_fee
            &&& protocol_fee + lp_fee == fee
            &&& output_before_fee < pool.available_x()
        }),
{
    lemma_output_within_coordinate(pool.current_y_k(), pool.current_x_k(), input_y);
    assert(pool.current_y_k() * pool.current_x_k() == pool.current_x_k() * pool.current_y_k())
        by (nonlinear_arith);
    lemma_payout_adds_up(pool, pool.output_before_fee_x(input_y));
}

/// A larger sale of X never receives less Y before fees, and once a sale
/// is refused for reaching the available Y, no larger sale is quoted: it
/// is refused for the same reason, or because its size leaves the 64-bit
/// range of the curve coordinate.
pub proof fn lemma_monotone_x_to_y(pool: SSTradingPair, input_1: int, input_2: int)
    requires
        pool.quoting_values_fit(),
        0 <= input_1 <= input_2,
        0 < pool.current_x_k() + input_1,
    ensures
        pool.output_before_fee_y(input_1) <= pool.output_before_fee_y(input_2),
        pool.quote_x_to_y_spec(input_1) == Err::<(u64, u64, u64), ObricError>(
            ObricError::InsufficientActiveY,
        ) ==> pool.quote_x_to_y_spec(input_2) == Err::<(u64, u64, u64), ObricError>(
            if pool.current_x_k() + input_2 > u64::MAX {
                ObricError::NumOverflowing
            } else {
                ObricError::InsufficientActiveY
            },
        ),
{
    let x_k = pool.current_x_k();
    let y_k = pool.current_y_k();
    assert(0 <= x_k * y_k) by (nonlinear_arith)
        requires
            0 <= x_k,
            0 <= y_k,
    ;
    lemma_output_monotone(x_k * y_k, x_k, y_k, input_1, input_2);
}

/// A larger sale of Y never receives less X before fees, and once a sale
/// is refused for reaching the available X, no larger sale is quoted.
pub proof fn lemma_monotone_y_to_x(pool: SSTradingPair, input_1: int, input_2: int)
    requires
        pool.quoting_values_fit(),
        0 <= input_1 <= input_2,
        0 < pool.current_y_k() + input_1,
    ensures
        pool.output_before_fee_x(input_1) <= pool.output_before_fee_x(input_2),
        pool.quote_y_to_x_spec(input_1) == Err::<(u64, u64, u64), ObricError>(
            ObricError::InsufficientActiveX,
        ) ==> pool.quote_y_to_x_spec(input_2) == Err::<(u64, u64, u64), ObricError>(
            if pool.current_y_k() + input_2 > u64::MAX {
                ObricError::NumOverflowing
            } else {
                ObricError::InsufficientActiveX
            },
        ),
{
    let x_k = pool.current_x_k();
    let y_k = pool.current_y_k();
    assert(0 <= x_k * y_k) by (nonlinear_arith)
        requires
            0 <= x_k,
            0 <= y_k,
    ;
    lemma_output_monotone(x_k * y_k, y_k, x_k, input_1, input_2);
}

/// With parameters in their ranges a payout never fails, as long as the
/// output before fees is small enough for its fee product.
pub proof fn lemma_payout_succeeds(pool: SSTradingPair, output_before_fee: int)
    requires
        pool.parameters_valid(),
        0 <= output_before_fee <= MAX_FEE_BASE,
    ensures
        pool.payout(output_before_fee) is Ok,
{
    lemma_fee_at_most_amount(output_before_fee, pool.fee_millionth as int);
    lemma_cut_at_most_fee(
        fee_of(output_before_fee, pool.fee_millionth as int),
        pool.protocol_fee_share_thousandth as int,
    );
}

/// With parameters in their ranges, a sale of X whose size and output fit
/// is quoted exactly when its output before fees stays below the available
/// Y, and is refused with `InsufficientActiveY` otherwise.
pub proof fn lemma_quote_x_to_y_outcome(pool: SSTradingPair, input_x: int)
    requires
        pool.parameters_valid(),
        pool.quoting_values_fit(),
        0 <= input_x,
        0 < pool.current_x_k() + input_x <= u64::MAX,
        pool.output_before_fee_y(input_x) <= MAX_FEE_BASE,
    ensures
        pool.output_before_fee_y(input_x) < pool.available_y() ==> pool.quote_x_to_y_spec(
            input_x,
        ) is Ok,
        pool.output_before_fee_y(input_x) >= pool.available_y() ==> pool.quote_x_to_y_spec(
            input_x,
        ) == Err::<(u64, u64, u64), ObricError>(ObricError::InsufficientActiveY),
{
    lemma_output_within_coordinate(pool.current_x_k(), pool.current_y_k(), input_x);
    lemma_payout_succeeds(pool, pool.output_before_fee_y(input_x));
}

/// With parameters in their ranges, a sale of Y whose size and output fit
/// is quoted exactly when its output before fees stays below the available
/// X, and is refused with `InsufficientActiveX` otherwise.
pub proof fn lemma_quote_y_to_x_outcome(pool: SSTradingPair, input_y: int)
    requires
        pool.parameters_valid(),
        pool.quoting_values_fit(),
        0 <= input_y,
        0 < pool.current_y_k() + input_y <= u64::MAX,
        pool.output_before_fee_x(input_y) <= MAX_FEE_BASE,
    ensures
        pool.output_before_fee_x(input_y) < pool.available_x() ==> pool.quote_y_to_x_spec(
            input_y,
        ) is Ok,
        pool.output_before_fee_x(input_y) >= pool.available_x() ==> pool.quote_y_to_x_spec(
            input_y,
        ) == Err::<(u64, u64, u64), ObricError>(ObricError::InsufficientActiveX),
{
    lemma_output_within_coordinate(pool.current_y_k(), pool.current_x_k(), input_y);
    assert(pool.current_y_k() * pool.current_x_k() == pool.current_x_k() * pool.current_y_k())
        by (nonlinear_arith);
    lemma_payout_succeeds(pool, pool.output_before_fee_x(input_y));
}

} // verus!
