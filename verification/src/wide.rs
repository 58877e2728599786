//! Multiplication followed by division through a 256-bit intermediate, and the
//! integer facts that tie it to signed fixed-point arithmetic.

use vstd::prelude::*;

verus! {

/// The absolute value of a mathematical integer.
pub open spec fn abs(x: int) -> int {
    if x < 0 {
        -x
    } else {
        x
    }
}

/// The quotient of `n` by `d`, rounded towards zero. Meaningful for `d != 0`.
pub open spec fn truncating_div(n: int, d: int) -> int {
    if (n < 0) == (d < 0) {
        abs(n) / abs(d)
    } else {
        -(abs(n) / abs(d))
    }
}

/// `floor(a * b / c)` over the mathematical integers, where `c` is not zero and the
/// quotient fits in 128 bits.
pub open spec fn mul_div_floor(a: u128, b: u128, c: u128) -> Option<u128> {
    if c == 0 || (a as int * b as int) / (c as int) > u128::MAX {
        None
    } else {
        Some(((a as int * b as int) / (c as int)) as u128)
    }
}

/// Calls `sp_runtime::helpers_128bit::multiply_by_rational_with_rounding` with the
/// rounding `Down`. The contract claims what that function documents: the exact
/// quotient of the 256-bit product `a * b` by `c`, rounded towards zero, and `None`
/// when `c` is zero or the quotient does not fit in 128 bits.
#[verifier::external_body]
pub(crate) fn multiply_by_rational(a: u128, b: u128, c: u128) -> (r: Option<u128>)
    ensures
        r == mul_div_floor(a, b, c),
{
    sp_runtime::helpers_128bit::multiply_by_rational_with_rounding(
        a,
        b,
        c,
        sp_runtime::Rounding::Down,
    )
}

/// The magnitude of a signed 128-bit integer, which always fits in 128 unsigned bits.
pub fn magnitude(x: i128) -> (r: u128)
    ensures
        r == abs(x as int),
{
    if x >= 0 {
        x as u128
    } else if x == i128::MIN {
        0x8000_0000_0000_0000_0000_0000_0000_0000u128
    } else {
        (-x) as u128
    }
}

/// The magnitude of a product is the product of the magnitudes, and a product is
/// negative exactly when its factors are nonzero and of opposite sign.
pub proof fn lemma_product_magnitude(a: int, b: int)
    ensures
        abs(a * b) == abs(a) * abs(b),
        a * b < 0 <==> (a != 0 && b != 0 && ((a < 0) != (b < 0))),
{
    assert(abs(a * b) == abs(a) * abs(b)) by (nonlinear_arith);
    assert(a * b < 0 <==> (a != 0 && b != 0 && ((a < 0) != (b < 0)))) by (nonlinear_arith);
}

/// Truncating division is odd in its numerator.
pub proof fn lemma_truncating_div_negated(n: int, d: int)
    requires
        d != 0,
    ensures
        truncating_div(-n, d) == -truncating_div(n, d),
{
    if n == 0 {
        assert(abs(0) / abs(d) == 0) by (nonlinear_arith)
            requires
                abs(d) > 0,
        ;
    }
}

} // verus!
