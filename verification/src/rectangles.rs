//! A rectangle with its area, the one piece of arithmetic in the toolkit.

use vstd::prelude::*;

verus! {

/// An axis-aligned rectangle given by its side lengths in pixels.
#[derive(Debug, Clone, Copy, PartialEq, Eq, Structural)]
pub struct Rectangle {
    pub width: u32,
    pub height: u32,
}

impl Rectangle {
    /// The area in square pixels. The sides must be small enough for the
    /// product to fit the result type.
    pub fn area(&self) -> (a: u32)
        requires
            self.width * self.height <= u32::MAX,
        ensures
            a == self.width * self.height,
    {
        self.width * self.height
    }
}

} // verus!
