//! Sizes, exact fractions and rectangles.

use vstd::prelude::*;

verus! {

/// Pixel dimensions of an image or of one tile.
#[derive(Clone, Copy, Debug, PartialEq, Eq)]
pub struct Size {
    pub width: u32,
    pub height: u32,
}

impl Size {
    pub fn new(width: u32, height: u32) -> (size: Size)
        ensures
            size.width == width,
            size.height == height,
    {
        Size { width, height }
    }

    /// Number of bytes of a tightly packed image of this size with four
    /// one-byte channels per pixel.
    pub open spec fn rgba8_len(self) -> int {
        4 * (self.width * self.height)
    }
}

impl From<(u32, u32)> for Size {
    fn from(pair: (u32, u32)) -> (size: Size) {
        Size { width: pair.0, height: pair.1 }
    }
}

impl vstd::std_specs::convert::FromSpecImpl<(u32, u32)> for Size {
    open spec fn obeys_from_spec() -> bool {
        true
    }

    open spec fn from_spec(pair: (u32, u32)) -> Size {
        Size { width: pair.0, height: pair.1 }
    }
}

/// The exact fraction `num / den`. A zero denominator is allowed and stands
/// for no number; nothing in this crate divides.
#[derive(Clone, Copy, Debug, PartialEq, Eq)]
pub struct Ratio {
    pub num: u64,
    pub den: u32,
}

impl Ratio {
    /// This fraction has the value `n / d`.
    pub open spec fn equals(self, n: int, d: int) -> bool {
        self.den > 0 && d > 0 && self.num * d == n * self.den
    }

    /// The value lies in `[0, 1]`.
    pub open spec fn in_unit_interval(self) -> bool {
        self.den > 0 && self.num <= self.den
    }

    /// The value is at most that of `other`.
    pub open spec fn le(self, other: Ratio) -> bool {
        self.den > 0 && other.den > 0 && self.num * other.den <= other.num * self.den
    }
}

/// An axis-aligned rectangle given by its four edges.
#[derive(Debug, PartialEq)]
pub struct Rect<T> {
    pub left: T,
    pub top: T,
    pub right: T,
    pub bottom: T,
}

impl<T: Copy> Clone for Rect<T> {
    fn clone(&self) -> (copy: Self)
        ensures
            copy == *self,
    {
        *self
    }
}

impl<T: Copy> Copy for Rect<T> {

}

impl Rect<Ratio> {
    /// The rectangle that covers a whole texture: `{0, 0, 1, 1}`.
    pub open spec fn spec_full() -> Rect<Ratio> {
        Rect {
            left: Ratio { num: 0, den: 1 },
            top: Ratio { num: 0, den: 1 },
            right: Ratio { num: 1, den: 1 },
            bottom: Ratio { num: 1, den: 1 },
        }
    }

    #[verifier::when_used_as_spec(spec_full)]
    pub fn full() -> (rect: Rect<Ratio>)
        ensures
            rect == Self::spec_full(),
    {
        Rect {
            left: Ratio { num: 0, den: 1 },
            top: Ratio { num: 0, den: 1 },
            right: Ratio { num: 1, den: 1 },
            bottom: Ratio { num: 1, den: 1 },
        }
    }

    /// `0 <= left <= right <= 1` and `0 <= top <= bottom <= 1`.
    pub open spec fn is_normalized(self) -> bool {
        &&& self.left.le(self.right)
        &&& self.right.in_unit_interval()
        &&& self.top.le(self.bottom)
        &&& self.bottom.in_unit_interval()
    }
}

} // verus!
