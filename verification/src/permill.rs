//! Fractions between zero and one, counted in parts per million.

use vstd::prelude::*;

verus! {

/// The number of parts that make up one.
pub const MILLION: u32 = 1_000_000;

/// A fraction in `[0, 1]`, held as its number of parts per million.
#[derive(Clone, Copy, Debug, PartialEq, Eq, Structural)]
pub struct Permill {
    parts: u32,
}

impl View for Permill {
    type V = nat;

    /// The number of parts per million.
    closed spec fn view(&self) -> nat {
        self.parts as nat
    }
}

impl Permill {
    #[verifier::type_invariant]
    spec fn in_range(self) -> bool {
        self.parts <= MILLION
    }

    /// The fraction of no parts.
    pub fn zero() -> (r: Permill)
        ensures
            r@ == 0,
    {
        Permill { parts: 0 }
    }

    /// The whole.
    pub fn one() -> (r: Permill)
        ensures
            r@ == MILLION,
    {
        Permill { parts: MILLION }
    }

    /// The fraction of `parts` parts per million, and the whole where `parts` is more
    /// than a million.
    pub fn from_parts(parts: u32) -> (r: Permill)
        ensures
            r@ == if parts <= MILLION { parts } else { MILLION },
    {
        if parts <= MILLION {
            Permill { parts }
        } else {
            Permill { parts: MILLION }
        }
    }

    /// The fraction of `percent` hundredths, and the whole where `percent` is more
    /// than a hundred.
    pub fn from_percent(percent: u32) -> (r: Permill)
        ensures
            r@ == if percent <= 100 { percent * 10_000 } else { MILLION as int },
    {
        if percent <= 100 {
            Permill { parts: percent * 10_000 }
        } else {
            Permill { parts: MILLION }
        }
    }

    /// The number of parts per million, which is at most a million.
    pub fn deconstruct(self) -> (r: u32)
        ensures
            r == self@,
            r <= MILLION,
    {
        proof {
            use_type_invariant(&self);
        }
        self.parts
    }
}

} // verus!
