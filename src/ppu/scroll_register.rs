use vstd::prelude::*;

verus! {

/// The scroll offsets written through PPUSCROLL ($2005).
#[derive(Debug, Clone, Copy)]
pub struct ScrollRegister {
    pub scroll_x: u8,
    pub scroll_y: u8,
}

impl ScrollRegister {
    /// No scroll.
    pub fn new() -> (r: Self)
        ensures
            r.scroll_x == 0,
            r.scroll_y == 0,
    {
        ScrollRegister { scroll_x: 0, scroll_y: 0 }
    }

    /// Stores a PPUSCROLL write: the first of a pair sets the horizontal offset, the second the vertical.
    pub fn write(&mut self, val: u8, first: bool)
        ensures
            final(self).scroll_x == if first { val } else { old(self).scroll_x },
            final(self).scroll_y == if first { old(self).scroll_y } else { val },
    {
        if first {
            self.scroll_x = val;
        } else {
            self.scroll_y = val;
        }
    }
}

} // verus!
