//! A rectangle with an area method.

use vstd::prelude::*;

verus! {

/// An axis-aligned rectangle given by its side lengths.
pub struct Rect {
    pub width: u32,
    pub height: u32,
}

impl Rect {
    /// The rectangle's area; the caller guarantees the product fits.
    pub fn area(&self) -> (a: u32)
        requires
            self.width * self.height <= u32::MAX,
        ensures
            a == self.width * self.height,
    {
        self.width * self.height
    }
}

} // verus!
