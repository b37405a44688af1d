//! Value multipliers: an oracle price folded together with the gap between
//! the two tokens' decimal counts.
//!
//! The token with more decimals keeps its bare price; the other token's price
//! is inflated by ten to the decimal gap, so that `balance * mult` is a
//! comparable value for both tokens without any division.

use vstd::prelude::*;
use crate::math::{pow10, pow_u64, lemma_pow10_fits_u64, lemma_pow10_adds, MAX_POW10_EXP_U64};

verus! {

/// The multiplier of token X for the given price and decimal counts.
pub open spec fn mult_x_spec(price_x: int, x_decimals: int, y_decimals: int) -> int {
    if y_decimals > x_decimals {
        price_x * pow10((y_decimals - x_decimals) as nat)
    } else {
        price_x
    }
}

/// The multiplier of token Y for the given price and decimal counts.
pub open spec fn mult_y_spec(price_y: int, x_decimals: int, y_decimals: int) -> int {
    if x_decimals > y_decimals {
        price_y * pow10((x_decimals - y_decimals) as nat)
    } else {
        price_y
    }
}

/// The distance between the two decimal counts.
pub open spec fn decimal_gap(x_decimals: int, y_decimals: int) -> nat {
    if x_decimals > y_decimals {
        (x_decimals - y_decimals) as nat
    } else {
        (y_decimals - x_decimals) as nat
    }
}

/// Whether the decimal factor and both multipliers fit in 64 bits.
pub open spec fn multipliers_fit(
    price_x: int,
    price_y: int,
    x_decimals: int,
    y_decimals: int,
) -> bool {
    &&& pow10(decimal_gap(x_decimals, y_decimals)) <= u64::MAX
    &&& mult_x_spec(price_x, x_decimals, y_decimals) <= u64::MAX
    &&& mult_y_spec(price_y, x_decimals, y_decimals) <= u64::MAX
}

/// Computes `(mult_x, mult_y)` from two prices and the two decimal counts.
/// Returns `None` exactly when the decimal factor or one of the products
/// leaves the 64-bit range.
pub fn compute_multipliers(price_x: u64, price_y: u64, x_decimals: u8, y_decimals: u8) -> (r:
    Option<(u64, u64)>)
    ensures
        r is Some <==> multipliers_fit(
            price_x as int,
            price_y as int,
            x_decimals as int,
            y_decimals as int,
        ),
        r matches Some((mult_x, mult_y)) ==> {
            &&& mult_x == mult_x_spec(price_x as int, x_decimals as int, y_decimals as int)
            &&& mult_y == mult_y_spec(price_y as int, x_decimals as int, y_decimals as int)
        },
{
    let gap: u8 = if x_decimals > y_decimals {
        x_decimals - y_decimals
    } else {
        y_decimals - x_decimals
    };
    proof {
        lemma_pow10_fits_u64(gap as nat);
        assert(gap as nat == decimal_gap(x_decimals as int, y_decimals as int));
    }
    if gap > MAX_POW10_EXP_U64 {
        return None;
    }
    let factor: u64 = pow_u64(10, gap as usize);
    let (x_deci_mult, y_deci_mult): (u64, u64) = if x_decimals > y_decimals {
        (1, factor)
    } else if y_decimals > x_decimals {
        (factor, 1)
    } else {
        (1, 1)
    };
    proof {
        let ghost mx = mult_x_spec(price_x as int, x_decimals as int, y_decimals as int);
        let ghost my = mult_y_spec(price_y as int, x_decimals as int, y_decimals as int);
        assert(factor == pow10(gap as nat));
        assert(price_x * 1 == price_x as int);
        assert(price_y * 1 == price_y as int);
        assert(price_x * x_deci_mult == mx);
        assert(price_y * y_deci_mult == my);
    }
    let mult_x = price_x.checked_mul(x_deci_mult);
    let mult_y = price_y.checked_mul(y_deci_mult);
    match (mult_x, mult_y) {
        (Some(mx), Some(my)) => Some((mx, my)),
        _ => None,
    }
}

/// Exchanging the roles of X and Y exchanges the two multipliers.
pub proof fn lemma_multipliers_symmetric(
    price_x: int,
    price_y: int,
    x_decimals: int,
    y_decimals: int,
)
    ensures
        mult_x_spec(price_x, x_decimals, y_decimals) == mult_y_spec(
            price_x,
            y_decimals,
            x_decimals,
        ),
        mult_y_spec(price_y, x_decimals, y_decimals) == mult_x_spec(
            price_y,
            y_decimals,
            x_decimals,
        ),
        multipliers_fit(price_x, price_y, x_decimals, y_decimals) == multipliers_fit(
            price_y,
            price_x,
            y_decimals,
            x_decimals,
        ),
{
}

/// The ratio of the multipliers is the price ratio adjusted for the decimal
/// gap: `mult_x / mult_y == (price_x / 10^x_decimals) / (price_y / 10^y_decimals)`,
/// stated without division as a cross product.
pub proof fn lemma_multiplier_ratio(price_x: int, price_y: int, x_decimals: nat, y_decimals: nat)
    ensures
        mult_x_spec(price_x, x_decimals as int, y_decimals as int) * (price_y * pow10(x_decimals))
            == mult_y_spec(price_y, x_decimals as int, y_decimals as int) * (price_x * pow10(
            y_decimals,
        )),
{
    let mx = mult_x_spec(price_x, x_decimals as int, y_decimals as int);
    let my = mult_y_spec(price_y, x_decimals as int, y_decimals as int);
    let px = pow10(x_decimals);
    let py = pow10(y_decimals);
    if x_decimals > y_decimals {
        let g = pow10((x_decimals - y_decimals) as nat);
        lemma_pow10_adds((x_decimals - y_decimals) as nat, y_decimals);
        assert(px == g * py);
        assert(price_x * (price_y * (g * py)) == (price_y * g) * (price_x * py))
            by (nonlinear_arith);
    } else if y_decimals > x_decimals {
        let g = pow10((y_decimals - x_decimals) as nat);
        lemma_pow10_adds((y_decimals - x_decimals) as nat, x_decimals);
        assert(py == g * px);
        assert((price_x * g) * (price_y * px) == price_y * (price_x * (g * px)))
            by (nonlinear_arith);
    } else {
        assert(price_x * (price_y * px) == price_y * (price_x * px)) by (nonlinear_arith);
    }
}

} // verus!
