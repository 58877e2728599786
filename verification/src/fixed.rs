//! Signed fixed-point numbers with eighteen fractional decimal digits.
//!
//! A value is held as its number of parts, `value * 10^18`, in 128 signed bits.
//! Products and quotients are rounded towards zero, and their magnitude is bounded
//! by the largest positive value, so that negating an operand negates the result.

use vstd::prelude::*;
use crate::permill::Permill;
use crate::wide::{abs, lemma_product_magnitude, magnitude, multiply_by_rational, truncating_div};

verus! {

/// The number of parts that make up one.
pub const ACCURACY: i128 = 1_000_000_000_000_000_000;

/// [`ACCURACY`] as an unsigned number.
pub const UNSIGNED_ACCURACY: u128 = 1_000_000_000_000_000_000;

/// The number of parts in one part per million.
pub const PARTS_PER_MILLIONTH: i128 = 1_000_000_000_000;

/// A signed fixed-point number; `parts` holds the value times [`ACCURACY`].
#[derive(Clone, Copy, Debug, PartialEq, Eq, Structural)]
pub struct Fixed128 {
    pub parts: i128,
}

impl View for Fixed128 {
    type V = int;

    open spec fn view(&self) -> int {
        self.parts as int
    }
}

/// Whether a product or a quotient with `parts` parts can be held.
pub open spec fn fits_magnitude(parts: int) -> bool {
    -(i128::MAX as int) <= parts <= i128::MAX as int
}

/// `value` brought into the range of 128 signed bits.
pub open spec fn clamp_parts(value: int) -> i128 {
    if value > i128::MAX {
        i128::MAX
    } else if value < i128::MIN {
        i128::MIN
    } else {
        value as i128
    }
}

/// The parts of the product of two numbers given by their parts.
pub open spec fn product_parts(a: int, b: int) -> int {
    truncating_div(a * b, ACCURACY as int)
}

/// The parts of the quotient of two numbers given by their parts, for `b != 0`.
pub open spec fn quotient_parts(a: int, b: int) -> int {
    truncating_div(a * ACCURACY, b)
}

/// Gives a sign to a magnitude, where the magnitude fits.
fn signed(negative: bool, size: Option<u128>) -> (r: Option<Fixed128>)
    ensures
        r == match size {
            Some(m) if m <= i128::MAX as u128 => Some(
                Fixed128 { parts: if negative { -(m as int) } else { m as int } as i128 },
            ),
            _ => None,
        },
{
    match size {
        Some(m) => {
            if m <= i128::MAX as u128 {
                let p: i128 = m as i128;
                Some(Fixed128 { parts: if negative { -p } else { p } })
            } else {
                None
            }
        },
        None => None,
    }
}

impl Fixed128 {
    pub open spec fn spec_zero() -> Fixed128 {
        Fixed128 { parts: 0 }
    }

    pub open spec fn spec_max_value() -> Fixed128 {
        Fixed128 { parts: i128::MAX }
    }

    pub open spec fn spec_checked_add(self, rhs: Fixed128) -> Option<Fixed128> {
        if i128::MIN <= self@ + rhs@ <= i128::MAX {
            Some(Fixed128 { parts: (self@ + rhs@) as i128 })
        } else {
            None
        }
    }

    pub open spec fn spec_checked_sub(self, rhs: Fixed128) -> Option<Fixed128> {
        if i128::MIN <= self@ - rhs@ <= i128::MAX {
            Some(Fixed128 { parts: (self@ - rhs@) as i128 })
        } else {
            None
        }
    }

    /// The product rounded towards zero, where its magnitude fits.
    pub open spec fn spec_checked_mul(self, rhs: Fixed128) -> Option<Fixed128> {
        if fits_magnitude(product_parts(self@, rhs@)) {
            Some(Fixed128 { parts: product_parts(self@, rhs@) as i128 })
        } else {
            None
        }
    }

    /// The quotient rounded towards zero, where the divisor is not zero and the
    /// quotient's magnitude fits.
    pub open spec fn spec_checked_div(self, rhs: Fixed128) -> Option<Fixed128> {
        if rhs@ != 0 && fits_magnitude(quotient_parts(self@, rhs@)) {
            Some(Fixed128 { parts: quotient_parts(self@, rhs@) as i128 })
        } else {
            None
        }
    }

    /// The absolute value, with the largest value in place of the one that has none.
    pub open spec fn spec_saturating_abs(self) -> Fixed128 {
        Fixed128 { parts: clamp_parts(abs(self@)) }
    }

    pub fn zero() -> (r: Fixed128)
        ensures
            r == Fixed128::spec_zero(),
    {
        Fixed128 { parts: 0 }
    }

    /// The largest value that can be held.
    pub fn max_value() -> (r: Fixed128)
        ensures
            r == Fixed128::spec_max_value(),
    {
        Fixed128 { parts: i128::MAX }
    }

    /// The number with the given parts: `parts / 10^18`.
    pub fn from_parts(parts: i128) -> (r: Fixed128)
        ensures
            r.parts == parts,
    {
        Fixed128 { parts }
    }

    /// The parts of the number.
    pub fn deconstruct(self) -> (r: i128)
        ensures
            r == self.parts,
    {
        self.parts
    }

    /// The whole number `n`, brought into range where it is too large to be held.
    pub fn from_natural(n: i128) -> (r: Fixed128)
        ensures
            r.parts == clamp_parts(n * ACCURACY),
    {
        match n.checked_mul(ACCURACY) {
            Some(parts) => Fixed128 { parts },
            None => {
                assert(n < 0 ==> n * ACCURACY < 0) by (nonlinear_arith);
                assert(n >= 0 ==> n * ACCURACY >= 0) by (nonlinear_arith);
                if n < 0 {
                    Fixed128 { parts: i128::MIN }
                } else {
                    Fixed128 { parts: i128::MAX }
                }
            },
        }
    }

    /// The ratio `n / d` rounded towards zero, brought into range where it is too
    /// large to be held.
    pub fn from_rational(n: i128, d: i128) -> (r: Fixed128)
        requires
            d != 0,
        ensures
            r.parts == clamp_parts(truncating_div(n * ACCURACY, d as int)),
    {
        let negative = (n < 0) != (d < 0);
        let size = multiply_by_rational(magnitude(n), UNSIGNED_ACCURACY, magnitude(d));
        proof {
            lemma_product_magnitude(n as int, ACCURACY as int);
            assert(abs(n as int) * abs(ACCURACY as int) >= 0) by (nonlinear_arith);
            assert(0 <= (abs(n as int) * abs(ACCURACY as int)) / abs(d as int)) by (nonlinear_arith)
                requires
                    abs(n as int) * abs(ACCURACY as int) >= 0,
                    abs(d as int) > 0,
            ;
        }
        match signed(negative, size) {
            Some(r) => r,
            None => {
                if negative {
                    Fixed128 { parts: i128::MIN }
                } else {
                    Fixed128 { parts: i128::MAX }
                }
            },
        }
    }

    pub fn checked_add(self, rhs: Fixed128) -> (r: Option<Fixed128>)
        ensures
            r == self.spec_checked_add(rhs),
    {
        match self.parts.checked_add(rhs.parts) {
            Some(parts) => Some(Fixed128 { parts }),
            None => None,
        }
    }

    pub fn checked_sub(self, rhs: Fixed128) -> (r: Option<Fixed128>)
        ensures
            r == self.spec_checked_sub(rhs),
    {
        match self.parts.checked_sub(rhs.parts) {
            Some(parts) => Some(Fixed128 { parts }),
            None => None,
        }
    }

    pub fn checked_mul(self, rhs: Fixed128) -> (r: Option<Fixed128>)
        ensures
            r == self.spec_checked_mul(rhs),
    {
        let negative = (self.parts < 0) != (rhs.parts < 0);
        let size = multiply_by_rational(
            magnitude(self.parts),
            magnitude(rhs.parts),
            UNSIGNED_ACCURACY,
        );
        proof {
            lemma_product_magnitude(self@, rhs@);
            assert(abs(self@) * abs(rhs@) >= 0) by (nonlinear_arith);
            assert(self@ * rhs@ == 0 ==> (self@ * rhs@) / (ACCURACY as int) == 0);
        }
        signed(negative, size)
    }

    pub fn checked_div(self, rhs: Fixed128) -> (r: Option<Fixed128>)
        ensures
            r == self.spec_checked_div(rhs),
    {
        if rhs.parts == 0 {
            return None;
        }
        let negative = (self.parts < 0) != (rhs.parts < 0);
        let size = multiply_by_rational(
            magnitude(self.parts),
            UNSIGNED_ACCURACY,
            magnitude(rhs.parts),
        );
        proof {
            lemma_product_magnitude(self@, ACCURACY as int);
            assert(abs(self@) * abs(ACCURACY as int) >= 0) by (nonlinear_arith);
            assert(0 <= (abs(self@) * abs(ACCURACY as int)) / abs(rhs@)) by (nonlinear_arith)
                requires
                    abs(self@) * abs(ACCURACY as int) >= 0,
                    abs(rhs@) > 0,
            ;
            assert(self@ == 0 ==> (abs(self@) * abs(ACCURACY as int)) / abs(rhs@) == 0)
                by (nonlinear_arith)
                requires
                    abs(rhs@) > 0,
            ;
        }
        signed(negative, size)
    }

    /// The sum, brought into range where it is too large to be held.
    pub fn saturating_add(self, rhs: Fixed128) -> (r: Fixed128)
        ensures
            r.parts == clamp_parts(self@ + rhs@),
    {
        match self.parts.checked_add(rhs.parts) {
            Some(parts) => Fixed128 { parts },
            None => if rhs.parts < 0 {
                Fixed128 { parts: i128::MIN }
            } else {
                Fixed128 { parts: i128::MAX }
            },
        }
    }

    /// The difference, brought into range where it is too large to be held.
    pub fn saturating_sub(self, rhs: Fixed128) -> (r: Fixed128)
        ensures
            r.parts == clamp_parts(self@ - rhs@),
    {
        match self.parts.checked_sub(rhs.parts) {
            Some(parts) => Fixed128 { parts },
            None => if rhs.parts > 0 {
                Fixed128 { parts: i128::MIN }
            } else {
                Fixed128 { parts: i128::MAX }
            },
        }
    }

    pub fn saturating_abs(self) -> (r: Fixed128)
        ensures
            r == self.spec_saturating_abs(),
    {
        if self.parts == i128::MIN {
            Fixed128 { parts: i128::MAX }
        } else if self.parts < 0 {
            Fixed128 { parts: -self.parts }
        } else {
            self
        }
    }

    pub fn is_positive(self) -> (r: bool)
        ensures
            r == (self@ > 0),
    {
        self.parts > 0
    }

    pub fn is_negative(self) -> (r: bool)
        ensures
            r == (self@ < 0),
    {
        self.parts < 0
    }

    /// Whether `self` is at most `rhs`.
    pub fn le(self, rhs: Fixed128) -> (r: bool)
        ensures
            r == (self@ <= rhs@),
    {
        self.parts <= rhs.parts
    }

    /// The fraction as a fixed-point number: a millionth is `10^12` parts.
    pub fn from_permill(fraction: Permill) -> (r: Fixed128)
        ensures
            r@ == fraction@ * PARTS_PER_MILLIONTH,
    {
        let parts: u32 = fraction.deconstruct();
        Fixed128 { parts: parts as i128 * PARTS_PER_MILLIONTH }
    }

    /// An unsigned amount held with the same accuracy, brought into range where it
    /// is too large to be held.
    pub fn saturating_from_balance(amount: u128) -> (r: Fixed128)
        ensures
            r.parts == clamp_parts(amount as int),
    {
        if amount > i128::MAX as u128 {
            Fixed128 { parts: i128::MAX }
        } else {
            Fixed128 { parts: amount as i128 }
        }
    }
}

} // verus!
