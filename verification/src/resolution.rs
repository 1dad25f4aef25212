//! Pixel extents and the aspect ratios derived from them.

use vstd::prelude::*;

verus! {

/// A two-dimensional extent in pixels.
#[derive(Clone, Copy, Debug, PartialEq, Eq, Structural)]
pub struct Resolution {
    pub width: u32,
    pub height: u32,
}

/// The exact ratio `width / height` of an extent, kept as a fraction.
#[derive(Clone, Copy, Debug, PartialEq, Eq, Structural)]
pub struct AspectRatio {
    pub numerator: u32,
    pub denominator: u32,
}

impl Resolution {
    /// A surface can only be configured with an extent whose components are
    /// both positive.
    pub open spec fn valid(self) -> bool {
        self.width > 0 && self.height > 0
    }

    /// The fraction `width / height`.
    pub open spec fn ratio(self) -> AspectRatio {
        AspectRatio { numerator: self.width, denominator: self.height }
    }

    /// The extent of the given width and height.
    pub fn new(width: u32, height: u32) -> (r: Self)
        ensures
            r == (Resolution { width, height }),
    {
        Resolution { width, height }
    }

    /// Whether a surface can be configured with this extent.
    pub fn is_valid(&self) -> (ok: bool)
        ensures
            ok == self.valid(),
    {
        self.width > 0 && self.height > 0
    }

    /// The aspect ratio of this extent.
    pub fn aspect_ratio(&self) -> (ratio: AspectRatio)
        ensures
            ratio == self.ratio(),
            self.valid() <==> ratio.valid(),
    {
        AspectRatio { numerator: self.width, denominator: self.height }
    }
}

impl AspectRatio {
    /// A ratio of two positive numbers.
    pub open spec fn valid(self) -> bool {
        self.numerator > 0 && self.denominator > 0
    }

    /// Two fractions with positive denominators denote the same number
    /// exactly when their cross products agree.
    pub open spec fn same_as(self, other: AspectRatio) -> bool {
        self.numerator * other.denominator == other.numerator * self.denominator
    }

    /// Whether both fractions denote the same number.
    pub fn equals(&self, other: &AspectRatio) -> (same: bool)
        ensures
            same == self.same_as(*other),
    {
        assert(self.numerator * other.denominator <= u64::MAX) by (nonlinear_arith)
            requires
                self.numerator <= u32::MAX,
                other.denominator <= u32::MAX,
        ;
        assert(other.numerator * self.denominator <= u64::MAX) by (nonlinear_arith)
            requires
                other.numerator <= u32::MAX,
                self.denominator <= u32::MAX,
        ;
        let left: u64 = (self.numerator as u64) * (other.denominator as u64);
        let right: u64 = (other.numerator as u64) * (self.denominator as u64);
        left == right
    }
}

} // verus!
