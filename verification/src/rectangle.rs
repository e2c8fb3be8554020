use vstd::prelude::*;

verus! {

/// An axis-aligned rectangle with unsigned 32-bit sides.
///
/// No invariant is imposed: degenerate rectangles with a zero side are
/// legal values, and every field combination is accepted.
#[derive(Debug, Clone, Copy, PartialEq, Eq, Structural)]
pub struct Rectangle {
    pub width: u32,
    pub height: u32,
}

impl Rectangle {
    /// The area as the exact mathematical product of the sides.
    pub open spec fn spec_area(self) -> int {
        self.width * self.height
    }

    /// Whether the width is strictly positive.
    pub open spec fn spec_has_positive_width(self) -> bool {
        self.width > 0
    }

    /// Whether `self` strictly exceeds `other` in both dimensions.
    pub open spec fn spec_can_hold(self, other: Rectangle) -> bool {
        self.width > other.width && self.height > other.height
    }

    /// The square with both sides equal to `size`.
    pub open spec fn spec_square(size: u32) -> Rectangle {
        Rectangle { width: size, height: size }
    }

    /// Returns the area of the rectangle.
    ///
    /// The result is computed in 64 bits, so no product of two 32-bit
    /// sides can overflow: the area is exact for every rectangle.
    pub fn area(&self) -> (a: u64)
        ensures
            a == self.spec_area(),
    {
        proof {
            assert(self.width * self.height <= u32::MAX * u32::MAX) by (nonlinear_arith)
                requires
                    self.width <= u32::MAX,
                    self.height <= u32::MAX,
            ;
        }
        (self.width as u64) * (self.height as u64)
    }

    /// Returns true iff the width is nonzero.
    pub fn width(&self) -> (b: bool)
        ensures
            b == self.spec_has_positive_width(),
    {
        self.width > 0
    }

    /// Returns true iff `self` can hold `other`: both dimensions of
    /// `self` strictly exceed those of `other`.
    pub fn _can_hold(&self, other: &Rectangle) -> (b: bool)
        ensures
            b == self.spec_can_hold(*other),
    {
        self.width > other.width && self.height > other.height
    }

    /// Constructs the square with both sides equal to `size`.
    pub fn _square(size: u32) -> (r: Rectangle)
        ensures
            r == Rectangle::spec_square(size),
    {
        Rectangle { width: size, height: size }
    }
}

/// A square's area is the square of its side.
pub proof fn lemma_square_area(size: u32)
    ensures
        Rectangle::spec_square(size).spec_area() == size * size,
{
}

} // verus!
