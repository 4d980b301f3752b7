use vstd::prelude::*;

verus! {

/// Frame width in pixels.
pub const WIDTH: usize = 256;
/// Frame height in pixels.
pub const HEIGHT: usize = 240;
/// Bytes in a frame: three per pixel.
pub const FRAME_BYTES: usize = 256 * 240 * 3;

/// Where pixel (x, y) starts in the buffer: rows of 256 pixels, three bytes each.
pub open spec fn pixel_index(x: int, y: int) -> int {
    (y * 256 + x) * 3
}

/// A 256x240 RGB framebuffer, row-major, three bytes per pixel.
pub struct Frame {
    pub data: Vec<u8>,
}

impl Frame {
    pub open spec fn wf(&self) -> bool {
        self.data@.len() == FRAME_BYTES
    }

    /// A black frame.
    pub fn new() -> (r: Self)
        ensures
            r.wf(),
            r.data@ == Seq::new(FRAME_BYTES as nat, |i: int| 0u8),
    {
        let data = vec![0u8; FRAME_BYTES];
        assert(data@ =~= Seq::new(FRAME_BYTES as nat, |i: int| 0u8));
        Frame { data }
    }

    /// Colours pixel (x, y) when its three bytes lie inside the buffer; does nothing otherwise.
    pub fn set_pixel(&mut self, x: usize, y: usize, color: (u8, u8, u8))
        requires
            old(self).wf(),
        ensures
            final(self).wf(),
            final(self).data@ == if pixel_index(x as int, y as int) + 2 < FRAME_BYTES {
                old(self).data@.update(pixel_index(x as int, y as int), color.0).update(
                    pixel_index(x as int, y as int) + 1,
                    color.1,
                ).update(pixel_index(x as int, y as int) + 2, color.2)
            } else {
                old(self).data@
            },
    {
        if x < WIDTH * HEIGHT && y < HEIGHT {
            let index = (y * WIDTH + x) * 3;
            if index + 2 < self.data.len() {
                self.data.set(index, color.0);
                self.data.set(index + 1, color.1);
                self.data.set(index + 2, color.2);
            }
        }
    }
}

impl Default for Frame {
    fn default() -> (r: Self)
        ensures
            r.wf(),
    {
        Self::new()
    }
}

} // verus!
