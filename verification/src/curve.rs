//! One step along the shifted constant-product curve.
//!
//! A pool sits at curve coordinates `(coord_in, coord_out)` on the hyperbola
//! `coord_in * coord_out == big_k`. A trade adds `input` to the first
//! coordinate; the second coordinate falls to `big_k / (coord_in + input)`,
//! rounded down, and the difference is what the trade receives before fees.

use vstd::prelude::*;
use crate::math::{lemma_floor_div_antitone, lemma_floor_div_brackets};

verus! {

/// The outgoing side's coordinate after `input` has been added to the
/// incoming side.
pub open spec fn shifted_coord(big_k: int, coord_in: int, input: int) -> int {
    big_k / (coord_in + input)
}

/// What a trade of size `input` receives before fees.
pub open spec fn output_before_fee(big_k: int, coord_in: int, coord_out: int, input: int) -> int {
    coord_out - shifted_coord(big_k, coord_in, input)
}

/// Whether `curve_output` can compute the output of a trade: the shifted
/// incoming coordinate is a positive 128-bit number and the output is a
/// 64-bit number.
pub open spec fn output_computable(big_k: int, coord_in: int, coord_out: int, input: int) -> bool {
    &&& 0 < coord_in + input <= u128::MAX
    &&& 0 <= output_before_fee(big_k, coord_in, coord_out, input) <= u64::MAX
}

/// Computes what a trade of size `input` receives before fees, from the
/// invariant and the pool's two curve coordinates.
pub fn curve_output(big_k: u128, coord_in: u128, coord_out: u128, input: u64) -> (r: Option<u64>)
    ensures
        r is Some <==> output_computable(
            big_k as int,
            coord_in as int,
            coord_out as int,
            input as int,
        ),
        r matches Some(output) ==> output == output_before_fee(
            big_k as int,
            coord_in as int,
            coord_out as int,
            input as int,
        ),
{
    let new_in = match coord_in.checked_add(input as u128) {
        Some(v) => v,
        None => { return None; },
    };
    if new_in == 0 {
        return None;
    }
    let new_out = big_k / new_in;
    if new_out > coord_out {
        return None;
    }
    let output = coord_out - new_out;
    if output > u64::MAX as u128 {
        return None;
    }
    Some(output as u64)
}

/// The shifted point stays on the curve up to the rounding of one unit of
/// the outgoing coordinate.
pub proof fn lemma_shift_keeps_invariant(big_k: int, coord_in: int, input: int)
    requires
        0 <= big_k,
        0 < coord_in + input,
    ensures
        0 <= shifted_coord(big_k, coord_in, input),
        (coord_in + input) * shifted_coord(big_k, coord_in, input) <= big_k,
        big_k < (coord_in + input) * (shifted_coord(big_k, coord_in, input) + 1),
{
    lemma_floor_div_brackets(big_k, coord_in + input);
}

/// A point that lies exactly on the curve yields its own outgoing
/// coordinate back when nothing is traded.
pub proof fn lemma_zero_input_gives_zero_output(coord_in: int, coord_out: int)
    requires
        0 < coord_in,
        0 <= coord_out,
    ensures
        output_before_fee(coord_in * coord_out, coord_in, coord_out, 0) == 0,
{
    let k = coord_in * coord_out;
    assert(0 <= k) by (nonlinear_arith)
        requires
            0 < coord_in,
            0 <= coord_out,
            k == coord_in * coord_out,
    ;
    lemma_floor_div_brackets(k, coord_in);
    let q = k / coord_in;
    assert(q == coord_out) by (nonlinear_arith)
        requires
            0 < coord_in,
            coord_in * q <= coord_in * coord_out < coord_in * (q + 1),
    ;
}

/// On a point that lies exactly on the curve, the output of a trade is
/// never negative and never more than the outgoing coordinate.
pub proof fn lemma_output_within_coordinate(coord_in: int, coord_out: int, input: int)
    requires
        0 <= coord_in,
        0 <= coord_out,
        0 <= input,
        0 < coord_in + input,
    ensures
        0 <= output_before_fee(coord_in * coord_out, coord_in, coord_out, input) <= coord_out,
{
    let k = coord_in * coord_out;
    let d = coord_in + input;
    assert(0 <= k <= d * coord_out) by (nonlinear_arith)
        requires
            0 <= coord_in <= d,
            0 <= coord_out,
            k == coord_in * coord_out,
    ;
    lemma_floor_div_brackets(k, d);
    let q = k / d;
    assert(q <= coord_out) by (nonlinear_arith)
        requires
            0 < d,
            d * q <= k,
            k <= d * coord_out,
    ;
}

/// A larger trade never receives less.
pub proof fn lemma_output_monotone(
    big_k: int,
    coord_in: int,
    coord_out: int,
    input_1: int,
    input_2: int,
)
    requires
        0 <= big_k,
        0 < coord_in + input_1,
        input_1 <= input_2,
    ensures
        output_before_fee(big_k, coord_in, coord_out, input_1) <= output_before_fee(
            big_k,
            coord_in,
            coord_out,
            input_2,
        ),
{
    lemma_floor_div_antitone(big_k, coord_in + input_1, coord_in + input_2);
}

/// A larger trade receives strictly more once the step is wide enough for
/// the exact hyperbola to fall by at least one unit between the two
/// inputs, that is once
/// `big_k * (input_2 - input_1) >= (coord_in + input_1) * (coord_in + input_2)`.
pub proof fn lemma_output_strictly_monotone(
    big_k: int,
    coord_in: int,
    coord_out: int,
    input_1: int,
    input_2: int,
)
    requires
        0 <= big_k,
        0 < coord_in + input_1,
        input_1 <= input_2,
        big_k * (input_2 - input_1) >= (coord_in + input_1) * (coord_in + input_2),
    ensures
        output_before_fee(big_k, coord_in, coord_out, input_1) < output_before_fee(
            big_k,
            coord_in,
            coord_out,
            input_2,
        ),
{
    let a = coord_in + input_1;
    let b = coord_in + input_2;
    let qa = big_k / a;
    let qb = big_k / b;
    lemma_floor_div_brackets(big_k, a);
    lemma_floor_div_brackets(big_k, b);
    // Were the two quotients equal, the real quotients could not be a whole
    // unit apart.
    if qa <= qb {
        assert(false) by (nonlinear_arith)
            requires
                0 < a <= b,
                0 <= qa <= qb,
                a * qa <= big_k < a * (qa + 1),
                b * qb <= big_k < b * (qb + 1),
                big_k * (b - a) >= a * b,
        ;
    }
}

} // verus!
