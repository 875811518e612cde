//! Exact fractions for levels that the synthesizer derives from integers.

use vstd::prelude::*;

verus! {

/// The fraction `num / den`.
#[derive(Debug, Clone, Copy, PartialEq, Eq, Structural)]
pub struct Level {
    pub num: i64,
    pub den: i64,
}

impl Level {
    /// The denominator is positive.
    pub open spec fn wf(self) -> bool {
        self.den > 0
    }

    /// The fraction lies between 0 and 1, ends included.
    pub open spec fn unipolar(self) -> bool {
        self.wf() && 0 <= self.num <= self.den
    }

    /// The fraction lies between -1 and 1, ends included.
    pub open spec fn bipolar(self) -> bool {
        self.wf() && -self.den <= self.num <= self.den
    }

    /// The two fractions add up to zero.
    pub open spec fn opposite(self, other: Level) -> bool {
        self.num * other.den + other.num * self.den == 0
    }
}

} // verus!
