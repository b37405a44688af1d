//! What holds of every quote on a static-target pool.

use vstd::prelude::*;
use crate::curve::{
    lemma_output_monotone, lemma_shift_keeps_invariant, output_computable, shifted_coord,
};
use crate::fees::{
    fee_of, lemma_cut_at_most_fee, lemma_fee_at_most_amount, lemma_rebate_at_most_fee, min_int,
    protocol_cut, rebate_of, rebate_ratio_of, MAX_FEE_BASE, MAX_REBATE_INPUT,
};
use crate::math::lemma_floor_div_brackets;
use crate::v2::errors::ObricError;
use crate::v2::state::SSTradingPair;

verus! {

/// The rebate ratio of a trade is a percentage: between zero and one
/// hundred.
pub proof fn lemma_rebate_ratio_is_percentage(input: int, target: int, current: int)
    requires
        0 < input,
        0 <= target,
        0 <= current,
    ensures
        0 <= rebate_ratio_of(input, target, current) <= 100,
{
    let capped = min_int(input, target - min_int(target, current));
    assert(0 <= capped <= input);
    lemma_floor_div_brackets(capped * 100, input);
    let ratio = capped * 100 / input;
    assert(ratio <= 100) by (nonlinear_arith)
        requires
            input * ratio <= capped * 100,
            capped <= input,
            0 < input,
    ;
}

/// Whatever a trade pays out adds up: the output after fees and the two fee
/// parts make up the output before fees exactly, and the two fee parts make
/// up the fee less the rebate, which is never more than the fee before the
/// rebate.
pub proof fn lemma_payout_adds_up(
    pool: SSTradingPair,
    output_before_fee: int,
    input: int,
    target: int,
    current: int,
)
    requires
        0 <= output_before_fee <= u64::MAX,
        0 < input,
        0 <= target,
        0 <= current,
        pool.payout(output_before_fee, input, target, current) is Ok,
    ensures
        ({
            let (output_after_fee, protocol_fee, lp_fee) = pool.payout(
                output_before_fee,
                input,
                target,
                current,
            )->Ok_0;
            let fee_before_rebate = fee_of(output_before_fee, pool.fee_millionth as int);
            let rebate = rebate_of(
                fee_before_rebate,
                rebate_ratio_of(input, target, current),
                pool.rebate_percentage as int,
            );
            let fee = fee_before_rebate - rebate;
            &&& 0 <= rebate <= fee_before_rebate
            &&& output_after_fee + fee == output_before_fee
            &&& protocol_fee + lp_fee == fee
            &&& protocol_fee + lp_fee <= fee_before_rebate
            &&& protocol_fee == protocol_cut(fee, pool.protocol_fee_share_thousandth as int)
        }),
{
    let fee_before_rebate = fee_of(output_before_fee, pool.fee_millionth as int);
    let scaled = output_before_fee * pool.fee_millionth;
    assert(0 <= scaled) by (nonlinear_arith)
        requires
            0 <= output_before_fee,
            0 <= pool.fee_millionth,
            scaled == output_before_fee * pool.fee_millionth,
    ;
    lemma_floor_div_brackets(scaled, 1_000_000);
    let ratio = rebate_ratio_of(input, target, current);
    lemma_rebate_ratio_is_percentage(input, target, current);
    let weighted = fee_before_rebate * ratio;
    assert(0 <= weighted) by (nonlinear_arith)
        requires
            0 <= fee_before_rebate,
            0 <= ratio,
            weighted == fee_before_rebate * ratio,
    ;
    lemma_floor_div_brackets(weighted, 100);
    let part = weighted / 100;
    let rescaled = part * pool.rebate_percentage;
    assert(0 <= rescaled) by (nonlinear_arith)
        requires
            0 <= part,
            0 <= pool.rebate_percentage,
            rescaled == part * pool.rebate_percentage,
    ;
    lemma_floor_div_brackets(rescaled, 100);
    let rebate = rebate_of(fee_before_rebate, ratio, pool.rebate_percentage as int);
    assert(rebate == rescaled / 100);
    let fee = fee_before_rebate - rebate;
    let cut_scaled = fee * pool.protocol_fee_share_thousandth;
    assert(0 <= cut_scaled) by (nonlinear_arith)
        requires
            0 <= fee,
            0 <= pool.protocol_fee_share_thousandth,
            cut_scaled == fee * pool.protocol_fee_share_thousandth,
    ;
    lemma_floor_div_brackets(cut_scaled, 1000);
}

/// The pool's point lies on the curve up to the rounding of one unit of
/// the Y coordinate, and so does the point a sale of X moves it to.
pub proof fn lemma_invariant_conserved(pool: SSTradingPair, current_x: int, input_x: int)
    requires
        pool.curve_fits(current_x),
        0 <= input_x,
    ensures
        ({
            let x_k = pool.current_x_k(current_x);
            let y_k = pool.current_y_k(current_x);
            x_k * y_k <= pool.big_k < x_k * (y_k + 1)
        }),
        ({
            let new_x_k = pool.current_x_k(current_x) + input_x;
            let new_y_k = shifted_coord(pool.big_k as int, pool.current_x_k(current_x), input_x);
            new_x_k * new_y_k <= pool.big_k < new_x_k * (new_y_k + 1)
        }),
{
    lemma_floor_div_brackets(pool.big_k as int, pool.current_x_k(current_x));
    lemma_shift_keeps_invariant(pool.big_k as int, pool.current_x_k(current_x), input_x);
}

/// A sale of nothing is quoted as three zeros, in both directions and in
/// every state of the pool.
pub proof fn lemma_zero_input(pool: SSTradingPair, current_x: int, current_y: int)
    ensures
        pool.quote_x_to_y_spec(0, current_x, current_y) == Ok::<(u64, u64, u64), ObricError>(
            (0u64, 0u64, 0u64),
        ),
        pool.quote_y_to_x_spec(0, current_x, current_y) == Ok::<(u64, u64, u64), ObricError>(
            (0u64, 0u64, 0u64),
        ),
{
}

/// Fees are conserved by every quote for X into Y: the output after fees
/// plus the net fee is the output before fees, the two fee parts are the
/// net fee, and together they are at most the fee before the rebate.
pub proof fn lemma_fee_conservation_x_to_y(
    pool: SSTradingPair,
    input_x: int,
    current_x: int,
    current_y: int,
)
    requires
        0 < input_x,
        0 <= current_x,
        0 <= current_y,
        pool.quote_x_to_y_spec(input_x, current_x, current_y) is Ok,
    ensures
        ({
            let (output_after_fee, protocol_fee, lp_fee) = pool.quote_x_to_y_spec(
                input_x,
                current_x,
                current_y,
            )->Ok_0;
            let output_before_fee = pool.output_before_fee_y(input_x, current_x);
            let fee_before_rebate = fee_of(output_before_fee, pool.fee_millionth as int);
            &&& output_after_fee + protocol_fee + lp_fee == output_before_fee
            &&& protocol_fee + lp_fee <= fee_before_rebate
            &&& output_before_fee < current_y
        }),
{
    lemma_payout_adds_up(
        pool,
        pool.output_before_fee_y(input_x, current_x),
        input_x,
        pool.target_x as int,
        current_x,
    );
}

/// Fees are conserved by every quote for Y into X.
pub proof fn lemma_fee_conservation_y_to_x(
    pool: SSTradingPair,
    input_y: int,
    current_x: int,
    current_y: int,
)
    requires
        0 < input_y,
        0 <= current_x,
        0 <= current_y,
        pool.quote_y_to_x_spec(input_y, current_x, current_y) is Ok,
    ensures
        ({
            let (output_after_fee, protocol_fee, lp_fee) = pool.quote_y_to_x_spec(
                input_y,
                current_x,
                current_y,
            )->Ok_0;
            let output_before_fee = pool.output_before_fee_x(input_y, current_x);
            let fee_before_rebate = fee_of(output_before_fee, pool.fee_millionth as int);
            &&& output_after_fee + protocol_fee + lp_fee == output_before_fee
            &&& protocol_fee + lp_fee <= fee_before_rebate
            &&& output_before_fee < current_x
        }),
{
    let total = pool.total_value(current_x, current_y);
    let rest = total - pool.target_x * pool.mult_x;
    lemma_floor_div_brackets(rest, pool.mult_y as int);
    lemma_payout_adds_up(
        pool,
        pool.output_before_fee_x(input_y, current_x),
        input_y,
        pool.target_y_of(current_x, current_y),
        current_y,
    );
}

/// A larger sale of X never receives less Y before fees, and once a sale
/// is refused for reaching the reserve of Y, no larger sale is quoted: it
/// is refused for the same reason, or because its output leaves the 64-bit
/// range.
pub proof fn lemma_monotone_x_to_y(
    pool: SSTradingPair,
    input_1: int,
    input_2: int,
    current_x: int,
    current_y: int,
)
    requires
        pool.curve_fits(current_x),
        0 < input_1 <= input_2,
    ensures
        pool.output_before_fee_y(input_1, current_x) <= pool.output_before_fee_y(
            input_2,
            current_x,
        ),
        pool.quote_x_to_y_spec(input_1, current_x, current_y) == Err::<
            (u64, u64, u64),
            ObricError,
        >(ObricError::InsufficientActiveY) ==> pool.quote_x_to_y_spec(
            input_2,
            current_x,
            current_y,
        ) == Err::<(u64, u64, u64), ObricError>(
            if output_computable(
                pool.big_k as int,
                pool.current_x_k(current_x),
                pool.current_y_k(current_x),
                input_2,
            ) {
                ObricError::InsufficientActiveY
            } else {
                ObricError::NumOverflowing
            },
        ),
{
    lemma_output_monotone(
        pool.big_k as int,
        pool.current_x_k(current_x),
        pool.current_y_k(current_x),
        input_1,
        input_2,
    );
}

/// A larger sale of Y never receives less X before fees, and once a sale
/// is refused for reaching the reserve of X, no larger sale is quoted.
pub proof fn lemma_monotone_y_to_x(
    pool: SSTradingPair,
    input_1: int,
    input_2: int,
    current_x: int,
    current_y: int,
)
    requires
        pool.curve_fits(current_x),
        0 < input_1 <= input_2,
    ensures
        pool.output_before_fee_x(input_1, current_x) <= pool.output_before_fee_x(
            input_2,
            current_x,
        ),
        pool.quote_y_to_x_spec(input_1, current_x, current_y) == Err::<
            (u64, u64, u64),
            ObricError,
        >(ObricError::InsufficientActiveX) ==> pool.quote_y_to_x_spec(
            input_2,
            current_x,
            current_y,
        ) == Err::<(u64, u64, u64), ObricError>(
            if output_computable(
                pool.big_k as int,
                pool.current_y_k(current_x),
                pool.current_x_k(current_x),
                input_2,
            ) {
                ObricError::InsufficientActiveX
            } else {
                ObricError::NumOverflowing
            },
        ),
{
    lemma_floor_div_brackets(pool.big_k as int, pool.current_x_k(current_x));
    lemma_output_monotone(
        pool.big_k as int,
        pool.current_y_k(current_x),
        pool.current_x_k(current_x),
        input_1,
        input_2,
    );
}

/// With parameters in their ranges a payout never fails, as long as the
/// output before fees and the trade are small enough for their products.
pub proof fn lemma_payout_succeeds(
    pool: SSTradingPair,
    output_before_fee: int,
    input: int,
    target: int,
    current: int,
)
    requires
        pool.parameters_valid(),
        0 <= output_before_fee <= MAX_FEE_BASE,
        0 < input <= MAX_REBATE_INPUT,
        0 <= target,
        0 <= current,
    ensures
        pool.payout(output_before_fee, input, target, current) is Ok,
{
    let fee_before_rebate = fee_of(output_before_fee, pool.fee_millionth as int);
    let ratio = rebate_ratio_of(input, target, current);
    let rebate = rebate_of(fee_before_rebate, ratio, pool.rebate_percentage as int);
    lemma_fee_at_most_amount(output_before_fee, pool.fee_millionth as int);
    lemma_rebate_ratio_is_percentage(input, target, current);
    lemma_rebate_at_most_fee(fee_before_rebate, ratio, pool.rebate_percentage as int);
    lemma_cut_at_most_fee(fee_before_rebate - rebate, pool.protocol_fee_share_thousandth as int);
}

/// With parameters in their ranges, a sale of X whose pool has a point on
/// the curve and whose products fit is quoted exactly when its output
/// before fees stays below the reserve of Y, and is refused with
/// `InsufficientActiveY` otherwise.
pub proof fn lemma_quote_x_to_y_outcome(
    pool: SSTradingPair,
    input_x: int,
    current_x: int,
    current_y: int,
)
    requires
        pool.parameters_valid(),
        pool.targets_fit(current_x, current_y),
        pool.curve_fits(current_x),
        0 < input_x <= MAX_REBATE_INPUT,
        0 <= current_x,
        0 <= current_y,
        pool.current_x_k(current_x) + input_x <= u128::MAX,
        pool.output_before_fee_y(input_x, current_x) <= MAX_FEE_BASE,
    ensures
        pool.output_before_fee_y(input_x, current_x) < current_y ==> pool.quote_x_to_y_spec(
            input_x,
            current_x,
            current_y,
        ) is Ok,
        pool.output_before_fee_y(input_x, current_x) >= current_y ==> pool.quote_x_to_y_spec(
            input_x,
            current_x,
            current_y,
        ) == Err::<(u64, u64, u64), ObricError>(ObricError::InsufficientActiveY),
{
    lemma_output_monotone(
        pool.big_k as int,
        pool.current_x_k(current_x),
        pool.current_y_k(current_x),
        0,
        input_x,
    );
    lemma_payout_succeeds(
        pool,
        pool.output_before_fee_y(input_x, current_x),
        input_x,
        pool.target_x as int,
        current_x,
    );
}

} // verus!
