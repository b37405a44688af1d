//! Integer facts the pricing rules rest on: powers of ten, floor division
//! and integer square roots.

use vstd::prelude::*;
use vstd::arithmetic::power::{pow, lemma_pow_increases, lemma_pow_positive, lemma_pow_adds};
use vstd::arithmetic::div_mod::{
    lemma_div_is_ordered_by_denominator, lemma_fundamental_div_mod, lemma_mod_bound,
};

verus! {

/// Ten raised to `e`.
pub open spec fn pow10(e: nat) -> int {
    pow(10, e)
}

/// The largest exponent whose power of ten still fits in 64 bits.
pub const MAX_POW10_EXP_U64: u8 = 19;

/// `pow10` is positive and grows with its exponent.
pub proof fn lemma_pow10_monotone(e1: nat, e2: nat)
    requires
        e1 <= e2,
    ensures
        1 <= pow10(e1) <= pow10(e2),
{
    lemma_pow_positive(10, e1);
    lemma_pow_increases(10, e1, e2);
}

/// `pow10` turns sums of exponents into products.
pub proof fn lemma_pow10_adds(e1: nat, e2: nat)
    ensures
        pow10(e1 + e2) == pow10(e1) * pow10(e2),
{
    lemma_pow_adds(10, e1, e2);
}

/// The two powers of ten that bracket the 64-bit range.
pub proof fn lemma_pow10_brackets_u64()
    ensures
        pow10(19) == 10_000_000_000_000_000_000,
        pow10(20) == 100_000_000_000_000_000_000,
        pow10(19) <= u64::MAX < pow10(20),
{
    reveal_with_fuel(pow, 21);
}

/// A power of ten fits in 64 bits exactly when its exponent is at most 19.
pub proof fn lemma_pow10_fits_u64(e: nat)
    ensures
        pow10(e) <= u64::MAX <==> e <= 19,
{
    lemma_pow10_brackets_u64();
    if e <= 19 {
        lemma_pow10_monotone(e, 19);
    } else {
        lemma_pow10_monotone(20, e);
    }
}

/// Floor division brackets the dividend: `d * (n / d) <= n < d * (n / d + 1)`.
pub proof fn lemma_floor_div_brackets(n: int, d: int)
    requires
        0 <= n,
        0 < d,
    ensures
        0 <= n / d,
        d * (n / d) <= n < d * (n / d + 1),
{
    lemma_fundamental_div_mod(n, d);
    lemma_mod_bound(n, d);
    assert(d * (n / d + 1) == d * (n / d) + d) by (nonlinear_arith);
    assert(0 <= n / d) by (nonlinear_arith)
        requires
            0 <= n,
            0 < d,
            n == d * (n / d) + n % d,
            0 <= n % d < d,
    ;
}

/// A larger divisor never gives a larger quotient.
pub proof fn lemma_floor_div_antitone(n: int, d1: int, d2: int)
    requires
        0 <= n,
        0 < d1 <= d2,
    ensures
        n / d2 <= n / d1,
{
    lemma_div_is_ordered_by_denominator(n, d1, d2);
}

/// `r` is the floor of the square root of `n`.
pub open spec fn is_floor_sqrt(n: int, r: int) -> bool {
    0 <= r && r * r <= n < (r + 1) * (r + 1)
}

/// The floor of the square root of `n`.
pub open spec fn isqrt(n: nat) -> nat {
    choose|r: nat| is_floor_sqrt(n as int, r as int)
}

/// At most one number is the floor square root of `n`.
pub proof fn lemma_floor_sqrt_unique(n: int, r1: int, r2: int)
    requires
        is_floor_sqrt(n, r1),
        is_floor_sqrt(n, r2),
    ensures
        r1 == r2,
{
    if r1 < r2 {
        assert((r1 + 1) * (r1 + 1) <= r2 * r2) by (nonlinear_arith)
            requires
                0 <= r1,
                r1 + 1 <= r2,
        ;
    } else if r2 < r1 {
        assert((r2 + 1) * (r2 + 1) <= r1 * r1) by (nonlinear_arith)
            requires
                0 <= r2,
                r2 + 1 <= r1,
        ;
    }
}

/// Every natural number has a floor square root.
pub proof fn lemma_floor_sqrt_exists(n: nat) -> (r: nat)
    ensures
        is_floor_sqrt(n as int, r as int),
    decreases n,
{
    if n == 0 {
        assert(is_floor_sqrt(0, 0));
        0
    } else {
        let p = lemma_floor_sqrt_exists((n - 1) as nat);
        let q: int = p as int;
        assert(q * q <= n - 1 < (q + 1) * (q + 1));
        if (q + 1) * (q + 1) <= n {
            assert(n < (q + 1 + 1) * (q + 1 + 1)) by (nonlinear_arith)
                requires
                    0 <= q,
                    n - 1 < (q + 1) * (q + 1),
            ;
            assert(is_floor_sqrt(n as int, q + 1));
            (q + 1) as nat
        } else {
            assert(is_floor_sqrt(n as int, q));
            p
        }
    }
}

/// `isqrt(n)` is the floor square root of `n`, and the only one.
pub proof fn lemma_isqrt(n: nat)
    ensures
        is_floor_sqrt(n as int, isqrt(n) as int),
        forall|r: int| is_floor_sqrt(n as int, r) ==> r == isqrt(n),
{
    let w = lemma_floor_sqrt_exists(n);
    assert(is_floor_sqrt(n as int, isqrt(n) as int));
    assert forall|r: int| is_floor_sqrt(n as int, r) implies r == isqrt(n) by {
        lemma_floor_sqrt_unique(n as int, r, isqrt(n) as int);
    }
}

/// The floor square root of a 128-bit number fits in 64 bits.
pub proof fn lemma_isqrt_u128_fits_u64(n: nat)
    requires
        n <= u128::MAX,
    ensures
        isqrt(n) <= u64::MAX,
{
    lemma_isqrt(n);
    let r = isqrt(n) as int;
    if r > u64::MAX {
        assert(r * r > u128::MAX) by (nonlinear_arith)
            requires
                r >= 0x1_0000_0000_0000_0000,
        ;
    }
}

/// Raises `base` to `exp` with `num::pow`, which multiplies by repeated
/// squaring. The contract claims the mathematical power, for inputs whose
/// power fits in 64 bits: every intermediate product of the squaring
/// scheme is then at most the result, so none overflows.
#[verifier::external_body]
pub(crate) fn pow_u64(base: u64, exp: usize) -> (r: u64)
    requires
        pow(base as int, exp as nat) <= u64::MAX,
    ensures
        r == pow(base as int, exp as nat),
{
    num::pow(base, exp)
}

/// Takes the square root of `n` with `num::integer::Roots::sqrt`. The
/// contract claims what that method documents: the result is the truncated
/// root, `r * r <= n < (r + 1) * (r + 1)`.
#[verifier::external_body]
pub(crate) fn sqrt_u128(n: u128) -> (r: u128)
    ensures
        r * r <= n < (r + 1) * (r + 1),
{
    num::integer::Roots::sqrt(&n)
}

/// The floor square root of a 128-bit number.
pub fn integer_sqrt(n: u128) -> (r: u128)
    ensures
        r == isqrt(n as nat),
        r <= u64::MAX,
{
    let r = sqrt_u128(n);
    proof {
        assert(is_floor_sqrt(n as int, r as int));
        lemma_isqrt(n as nat);
        lemma_isqrt_u128_fits_u64(n as nat);
    }
    r
}

} // verus!
