use vstd::prelude::*;

verus! {

/// One pixel position in an image.
pub struct Pixel {
    pub x: usize,
    pub y: usize,
}

impl Pixel {
    /// The pixel at column `x`, row `y`.
    pub fn new(x: usize, y: usize) -> (r: Pixel)
        ensures
            r.x == x,
            r.y == y,
    {
        Pixel { x, y }
    }
}

} // verus!
