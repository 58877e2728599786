//! Unsigned fixed-point numbers with eighteen fractional decimal digits, used for
//! prices.

use vstd::prelude::*;
use crate::fixed::{Fixed128, UNSIGNED_ACCURACY};
use crate::permill::Permill;
use crate::wide::multiply_by_rational;

verus! {

/// The number of price parts in one part per million.
pub const PARTS_PER_MILLIONTH: u128 = 1_000_000_000_000;

/// An unsigned fixed-point number; `parts` holds the value times `10^18`.
#[derive(Clone, Copy, Debug, PartialEq, Eq, Structural)]
pub struct Price {
    pub parts: u128,
}

impl View for Price {
    type V = int;

    open spec fn view(&self) -> int {
        self.parts as int
    }
}

/// `value` brought into the range of 128 unsigned bits, for `value >= 0`.
pub open spec fn clamp_unsigned(value: int) -> u128 {
    if value > u128::MAX {
        u128::MAX
    } else {
        value as u128
    }
}

impl Price {
    pub open spec fn spec_one() -> Price {
        Price { parts: UNSIGNED_ACCURACY }
    }

    pub open spec fn spec_from_permill(fraction: Permill) -> Price {
        Price { parts: (fraction@ * PARTS_PER_MILLIONTH) as u128 }
    }

    pub open spec fn spec_checked_add(self, rhs: Price) -> Option<Price> {
        if self@ + rhs@ <= u128::MAX {
            Some(Price { parts: (self@ + rhs@) as u128 })
        } else {
            None
        }
    }

    pub open spec fn spec_saturating_sub(self, rhs: Price) -> Price {
        if self@ >= rhs@ {
            Price { parts: (self@ - rhs@) as u128 }
        } else {
            Price { parts: 0 }
        }
    }

    /// The product rounded down, where it fits.
    pub open spec fn spec_checked_mul(self, rhs: Price) -> Option<Price> {
        if (self@ * rhs@) / (UNSIGNED_ACCURACY as int) <= u128::MAX {
            Some(Price { parts: ((self@ * rhs@) / (UNSIGNED_ACCURACY as int)) as u128 })
        } else {
            None
        }
    }

    /// The quotient rounded down, where the divisor is not zero and the quotient fits.
    pub open spec fn spec_checked_div(self, rhs: Price) -> Option<Price> {
        if rhs@ != 0 && (self@ * UNSIGNED_ACCURACY) / rhs@ <= u128::MAX {
            Some(Price { parts: ((self@ * UNSIGNED_ACCURACY) / rhs@) as u128 })
        } else {
            None
        }
    }

    /// The signed number of the same value, where it can be held.
    pub open spec fn spec_to_fixed(self) -> Option<Fixed128> {
        if self@ <= i128::MAX {
            Some(Fixed128 { parts: self.parts as i128 })
        } else {
            None
        }
    }

    pub fn zero() -> (r: Price)
        ensures
            r.parts == 0,
    {
        Price { parts: 0 }
    }

    pub fn one() -> (r: Price)
        ensures
            r == Price::spec_one(),
    {
        Price { parts: UNSIGNED_ACCURACY }
    }

    /// The number with the given parts: `parts / 10^18`.
    pub fn from_parts(parts: u128) -> (r: Price)
        ensures
            r.parts == parts,
    {
        Price { parts }
    }

    /// The parts of the number.
    pub fn deconstruct(self) -> (r: u128)
        ensures
            r == self.parts,
    {
        self.parts
    }

    /// The whole number `n`, brought into range where it is too large to be held.
    pub fn from_natural(n: u128) -> (r: Price)
        ensures
            r.parts == clamp_unsigned(n * UNSIGNED_ACCURACY),
    {
        match n.checked_mul(UNSIGNED_ACCURACY) {
            Some(parts) => Price { parts },
            None => Price { parts: u128::MAX },
        }
    }

    /// The ratio `n / d` rounded down, brought into range where it is too large to
    /// be held.
    pub fn from_rational(n: u128, d: u128) -> (r: Price)
        requires
            d != 0,
        ensures
            r.parts == clamp_unsigned((n * UNSIGNED_ACCURACY) / (d as int)),
    {
        match multiply_by_rational(n, UNSIGNED_ACCURACY, d) {
            Some(parts) => Price { parts },
            None => Price { parts: u128::MAX },
        }
    }

    /// The fraction as a price: a millionth is `10^12` parts.
    pub fn from_permill(fraction: Permill) -> (r: Price)
        ensures
            r == Price::spec_from_permill(fraction),
            r@ <= UNSIGNED_ACCURACY,
    {
        let parts: u32 = fraction.deconstruct();
        Price { parts: parts as u128 * PARTS_PER_MILLIONTH }
    }

    pub fn checked_add(self, rhs: Price) -> (r: Option<Price>)
        ensures
            r == self.spec_checked_add(rhs),
    {
        match self.parts.checked_add(rhs.parts) {
            Some(parts) => Some(Price { parts }),
            None => None,
        }
    }

    /// The difference, and zero where `rhs` is the larger.
    pub fn saturating_sub(self, rhs: Price) -> (r: Price)
        ensures
            r == self.spec_saturating_sub(rhs),
    {
        if self.parts >= rhs.parts {
            Price { parts: self.parts - rhs.parts }
        } else {
            Price { parts: 0 }
        }
    }

    pub fn checked_mul(self, rhs: Price) -> (r: Option<Price>)
        ensures
            r == self.spec_checked_mul(rhs),
    {
        match multiply_by_rational(self.parts, rhs.parts, UNSIGNED_ACCURACY) {
            Some(parts) => Some(Price { parts }),
            None => None,
        }
    }

    pub fn checked_div(self, rhs: Price) -> (r: Option<Price>)
        ensures
            r == self.spec_checked_div(rhs),
    {
        match multiply_by_rational(self.parts, UNSIGNED_ACCURACY, rhs.parts) {
            Some(parts) => Some(Price { parts }),
            None => None,
        }
    }

    /// The signed number of the same value, where it can be held.
    pub fn to_fixed(self) -> (r: Option<Fixed128>)
        ensures
            r == self.spec_to_fixed(),
    {
        if self.parts <= i128::MAX as u128 {
            Some(Fixed128 { parts: self.parts as i128 })
        } else {
            None
        }
    }
}

} // verus!
