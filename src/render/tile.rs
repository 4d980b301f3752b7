use vstd::prelude::*;

verus! {

/// A rectangle of nametable pixels: columns `x1..x2` and rows `y1..y2`.
#[derive(Debug, Clone, Copy)]
pub struct Slice {
    pub x1: usize,
    pub y1: usize,
    pub x2: usize,
    pub y2: usize,
}

impl Slice {
    pub fn new(x1: usize, y1: usize, x2: usize, y2: usize) -> (r: Self)
        ensures
            r.x1 == x1 && r.y1 == y1 && r.x2 == x2 && r.y2 == y2,
    {
        Slice { x1, y1, x2, y2 }
    }

    /// Whether a pixel lies inside the rectangle.
    pub open spec fn contains(self, x: int, y: int) -> bool {
        self.x1 <= x < self.x2 && self.y1 <= y < self.y2
    }
}

} // verus!
