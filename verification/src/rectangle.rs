//! A rectangle with named width and height, and the operations attached to
//! it: area, strict containment, and a square constructor.

use vstd::prelude::*;

verus! {

/// A rectangle, measured in pixels.
pub struct Rectangle {
    pub width: u32,
    pub height: u32,
}

impl Rectangle {
    /// The area of the rectangle: exactly the product of width and height.
    pub fn area(&self) -> (a: u32)
        requires
            self.width * self.height <= u32::MAX,
        ensures
            a == self.width * self.height,
    {
        self.width * self.height
    }

    /// Whether `other` fits strictly inside `self`: true exactly when both
    /// the width and the height of `self` strictly exceed those of `other`.
    /// Equality on either dimension yields false.
    pub fn can_hold(&self, other: &Rectangle) -> (r: bool)
        ensures
            r == (self.width > other.width && self.height > other.height),
    {
        self.width > other.width && self.height > other.height
    }

    /// A square: a rectangle with both dimensions set to `size`.
    pub fn square(size: u32) -> (r: Rectangle)
        ensures
            r.width == size,
            r.height == size,
    {
        Rectangle { width: size, height: size }
    }
}

} // verus!
