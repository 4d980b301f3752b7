use vstd::prelude::*;
use crate::cpu::mirroring::Mirroring;
use crate::ppu::controller_register::ControllerRegister;
use crate::ppu::ppu::{PPU, PpuState};
use crate::render::frame::{pixel_index, Frame, FRAME_BYTES, HEIGHT, WIDTH};
use crate::render::palette::{master_color, system_color};
use crate::render::tile::Slice;

verus! {

/// Tiles in a nametable (32 by 30); the attribute table follows them.
pub const TILES: usize = 0x3C0;

/// The 2-bit colour of column `x` (0 leftmost) of a tile row with planes `lo` and `hi`.
pub open spec fn plane_color(lo: u8, hi: u8, x: u8) -> u8 {
    ((((hi >> (7 - x) as u8) & 1u8) << 1u8) | ((lo >> (7 - x) as u8) & 1u8)) as u8
}

/// The shift of a tile's palette bits within its attribute byte, by its 2x2 quadrant.
pub open spec fn attribute_shift(col: int, row: int) -> u8 {
    let qx = col % 4 / 2;
    let qy = row % 4 / 2;
    if qx == 0 && qy == 0 {
        0
    } else if qx == 1 && qy == 0 {
        2
    } else if qx == 0 && qy == 1 {
        4
    } else {
        6
    }
}

/// The background palette of tile (col, row) of the nametable at VRAM offset `base`:
/// the universal colour, then the three colours of the palette its attribute bits select.
pub open spec fn background_palette(ppu: PpuState, base: int, col: int, row: int) -> Seq<u8> {
    let attr = ppu.ram[base + TILES + row / 4 * 8 + col / 4];
    let idx = (attr >> attribute_shift(col, row)) & 3u8;
    let start = 1 + idx * 4;
    seq![ppu.palette[0], ppu.palette[start], ppu.palette[start + 1], ppu.palette[start + 2]]
}

/// The palette of sprite palette `idx` (0-3); colour 0 is transparent.
pub open spec fn sprite_palette(ppu: PpuState, idx: u8) -> Seq<u8> {
    let start = 0x11 + idx * 4;
    seq![0u8, ppu.palette[start], ppu.palette[start + 1], ppu.palette[start + 2]]
}

/// The VRAM offsets of the nametable that PPUCTRL selects and of its neighbour in the
/// scroll direction, under vertical or horizontal mirroring.
pub open spec fn nametables(m: Mirroring, nametable: u16) -> (usize, usize) {
    if (m == Mirroring::Vertical && (nametable == 0x2000 || nametable == 0x2800)) || (m
        == Mirroring::Horizontal && (nametable == 0x2000 || nametable == 0x2400)) {
        (0, 0x400)
    } else {
        (0x400, 0)
    }
}

/// A CHR byte, or 0 past the end of CHR.
pub open spec fn chr_byte_at(ppu: PpuState, addr: int) -> u8 {
    if 0 <= addr < ppu.chr.len() { ppu.chr[addr] } else { 0 }
}

/// The colour of background pixel (px, py) of the nametable at VRAM offset `base`: the
/// tile's two pattern planes give a 2-bit value; 0 is the universal background colour,
/// otherwise the value picks a colour of the tile's attribute palette.
pub open spec fn background_pixel(ppu: PpuState, base: int, px: int, py: int) -> (u8, u8, u8) {
    let col = px / 8;
    let row = py / 8;
    let tile = ppu.ram[base + row * 32 + col];
    let bank: int = if ppu.ctrl & 0x10 != 0 { 0x1000 } else { 0 };
    let lo = chr_byte_at(ppu, bank + tile * 16 + py % 8);
    let hi = chr_byte_at(ppu, bank + tile * 16 + py % 8 + 8);
    let v = plane_color(lo, hi, (px % 8) as u8);
    let idx = if v == 0 { ppu.palette[0] } else { background_palette(ppu, base, col, row)[v as int] };
    master_color(idx & 0x3F)
}

/// The three bytes of pixel (x, y) of a frame buffer.
pub open spec fn pixel_at(data: Seq<u8>, x: int, y: int) -> (u8, u8, u8) {
    let i = pixel_index(x, y);
    (data[i], data[i + 1], data[i + 2])
}

/// Whether frame pixel (fx, fy) shows nametable pixel (fx - ox, fy - oy) of `slice`.
pub open spec fn shows(slice: Slice, ox: int, oy: int, fx: int, fy: int) -> bool {
    let px = fx - ox;
    let py = fy - oy;
    0 <= px < 256 && 0 <= py < 240 && slice.contains(px, py)
}

/// The background frame pixel (fx, fy) after the scrolled nametables are drawn over
/// `old`: the selected nametable from (scroll_x, scroll_y), and its neighbour filling the
/// strip that the horizontal (or else vertical) scroll uncovers.
pub open spec fn background_view(ppu: PpuState, old: Seq<u8>, fx: int, fy: int) -> (u8, u8, u8) {
    let sx = ppu.scroll_x as int;
    let sy = ppu.scroll_y as int;
    let (main, second) = nametables(ppu.mirroring, ControllerRegister::nametable_of(ppu.ctrl));
    let main_slice = Slice { x1: sx as usize, y1: sy as usize, x2: 256, y2: 240 };
    let drawn = if shows(main_slice, -sx, -sy, fx, fy) {
        background_pixel(ppu, main as int, fx + sx, fy + sy)
    } else {
        pixel_at(old, fx, fy)
    };
    if sx > 0 && shows(Slice { x1: 0, y1: 0, x2: sx as usize, y2: 240 }, 256 - sx, 0, fx, fy) {
        background_pixel(ppu, second as int, fx - (256 - sx), fy)
    } else if sx == 0 && sy > 0 && shows(Slice { x1: 0, y1: 0, x2: 256, y2: sy as usize }, 0, 240 - sy, fx, fy) {
        background_pixel(ppu, second as int, fx, fy - (240 - sy))
    } else {
        drawn
    }
}

/// The colour that sprite `n` gives frame pixel (fx, fy), if its box covers the pixel with
/// a non-transparent colour. Bits 6 and 7 of the attribute byte flip the tile horizontally
/// and vertically; bits 0-1 select its palette.
pub open spec fn sprite_pixel(ppu: PpuState, n: int, fx: int, fy: int) -> Option<(u8, u8, u8)> {
    let y0 = ppu.oam[4 * n] as int;
    let tile = ppu.oam[4 * n + 1] as int;
    let attr = ppu.oam[4 * n + 2];
    let x0 = ppu.oam[4 * n + 3] as int;
    let dx = fx - x0;
    let dy = fy - y0;
    if 0 <= dx < 8 && 0 <= dy < 8 {
        let x = if (attr >> 6u8) & 1 == 1 { 7 - dx } else { dx };
        let y = if (attr >> 7u8) & 1 == 1 { 7 - dy } else { dy };
        let bank: int = if ppu.ctrl & 0x08 != 0 { 0x1000 } else { 0 };
        let lo = chr_byte_at(ppu, bank + tile * 16 + y);
        let hi = chr_byte_at(ppu, bank + tile * 16 + y + 8);
        let v = plane_color(lo, hi, x as u8);
        if v == 0 {
            None
        } else {
            Some(master_color(sprite_palette(ppu, attr & 3u8)[v as int] & 0x3F))
        }
    } else {
        None
    }
}

/// The colour of the first sprite from `n` on that shows at (fx, fy), if any.
pub open spec fn sprites_from(ppu: PpuState, n: int, fx: int, fy: int) -> Option<(u8, u8, u8)>
    decreases 64 - n,
{
    if n >= 64 || n < 0 {
        None
    } else {
        match sprite_pixel(ppu, n, fx, fy) {
            Some(c) => Some(c),
            None => sprites_from(ppu, n + 1, fx, fy),
        }
    }
}

/// Draws frames from the PPU's state.
pub struct Renderer {}

impl Renderer {
    pub fn new() -> (r: Self) {
        Renderer {  }
    }

    /// A CHR byte, or 0 past the end of CHR.
    fn chr_byte(ppu: &PPU, addr: usize) -> (r: u8)
        ensures
            r == (if addr < ppu@.chr.len() { ppu@.chr[addr as int] } else { 0u8 }),
    {
        if addr < ppu.chr.len() {
            ppu.chr[addr]
        } else {
            0
        }
    }

    /// The 2-bit colour of column `x` of a tile row.
    fn pixel_value(lo: u8, hi: u8, x: u8) -> (r: u8)
        requires
            x < 8,
        ensures
            r == plane_color(lo, hi, x),
            r < 4,
    {
        let shift = 7 - x;
        let r = (((hi >> shift) & 1) << 1) | ((lo >> shift) & 1);
        assert(r < 4) by (bit_vector)
            requires
                r == (((hi >> shift) & 1u8) << 1u8) | ((lo >> shift) & 1u8),
        ;
        r
    }

    fn bg_pal(ppu: &PPU, base: usize, tile_column: usize, tile_row: usize) -> (r: [u8; 4])
        requires
            ppu.wf(),
            base == 0 || base == 0x400,
            tile_column < 32,
            tile_row < 30,
        ensures
            r@ == background_palette(ppu@, base as int, tile_column as int, tile_row as int),
    {
        let attr_table_idx = tile_row / 4 * 8 + tile_column / 4;
        let attr_byte = ppu.ram[base + TILES + attr_table_idx];
        let qx = tile_column % 4 / 2;
        let qy = tile_row % 4 / 2;
        let shift: u8 = if qx == 0 && qy == 0 {
            0
        } else if qx == 1 && qy == 0 {
            2
        } else if qx == 0 && qy == 1 {
            4
        } else {
            6
        };
        let palette_idx = (attr_byte >> shift) & 0b11;
        assert(palette_idx <= 3) by (bit_vector)
            requires
                palette_idx == (attr_byte >> shift) & 3u8,
        ;
        let palette_start: usize = 1 + (palette_idx as usize) * 4;
        let r = [
            ppu.palette[0],
            ppu.palette[palette_start],
            ppu.palette[palette_start + 1],
            ppu.palette[palette_start + 2],
        ];
        assert(r@ =~= background_palette(ppu@, base as int, tile_column as int, tile_row as int));
        r
    }

    fn sprite_pal(ppu: &PPU, pallete_idx: u8) -> (r: [u8; 4])
        requires
            ppu.wf(),
            pallete_idx <= 3,
        ensures
            r@ == sprite_palette(ppu@, pallete_idx),
    {
        let start = 0x11 + (pallete_idx as usize) * 4;
        let r = [0, ppu.palette[start], ppu.palette[start + 1], ppu.palette[start + 2]];
        assert(r@ =~= sprite_palette(ppu@, pallete_idx));
        r
    }

    /// The colour of one background pixel.
    fn background_pixel(ppu: &PPU, base: usize, px: usize, py: usize) -> (r: (u8, u8, u8))
        requires
            ppu.wf(),
            base == 0 || base == 0x400,
            px < 256,
            py < 240,
        ensures
            r == background_pixel(ppu@, base as int, px as int, py as int),
    {
        let background = ppu.controller_register.background_pattern_table() as usize;
        let col = px / 8;
        let row = py / 8;
        let tile = ppu.ram[base + row * 32 + col] as usize;
        let lo = Self::chr_byte(ppu, background + tile * 16 + py % 8);
        let hi = Self::chr_byte(ppu, background + tile * 16 + py % 8 + 8);
        let value = Self::pixel_value(lo, hi, (px % 8) as u8);
        let palette = Self::bg_pal(ppu, base, col, row);
        let color_index = if value == 0 {
            ppu.palette[0]
        } else {
            palette[value as usize]
        };
        system_color(color_index)
    }

    /// Draws the part of a nametable (at VRAM offset `base`) that `slice` covers, moved by
    /// the offsets: each frame pixel that shows a pixel of the slice takes its colour, and
    /// every other pixel keeps its own.
    fn render_slice(
        ppu: &PPU,
        frame: &mut Frame,
        base: usize,
        slice: Slice,
        offset_x: isize,
        offset_y: isize,
    )
        requires
            ppu.wf(),
            old(frame).wf(),
            base == 0 || base == 0x400,
            -256 <= offset_x <= 256,
            -256 <= offset_y <= 256,
        ensures
            final(frame).wf(),
            forall|fx: int, fy: int|
                0 <= fx < 256 && 0 <= fy < 240 ==> #[trigger] pixel_at(final(frame).data@, fx, fy) == if shows(
                    slice,
                    offset_x as int,
                    offset_y as int,
                    fx,
                    fy,
                ) {
                    background_pixel(ppu@, base as int, fx - offset_x, fy - offset_y)
                } else {
                    pixel_at(old(frame).data@, fx, fy)
                },
    {
        let mut fy: usize = 0;
        while fy < HEIGHT
            invariant
                ppu.wf(),
                frame.wf(),
                base == 0 || base == 0x400,
                -256 <= offset_x <= 256,
                -256 <= offset_y <= 256,
                fy <= 240,
                forall|x: int, y: int|
                    0 <= x < 256 && 0 <= y < 240 ==> #[trigger] pixel_at(frame.data@, x, y) == if y < fy
                        && shows(slice, offset_x as int, offset_y as int, x, y) {
                        background_pixel(ppu@, base as int, x - offset_x, y - offset_y)
                    } else {
                        pixel_at(old(frame).data@, x, y)
                    },
            decreases 240 - fy,
        {
            let mut fx: usize = 0;
            while fx < WIDTH
                invariant
                    ppu.wf(),
                    frame.wf(),
                    base == 0 || base == 0x400,
                    -256 <= offset_x <= 256,
                    -256 <= offset_y <= 256,
                    fy < 240,
                    fx <= 256,
                    forall|x: int, y: int|
                        0 <= x < 256 && 0 <= y < 240 ==> #[trigger] pixel_at(frame.data@, x, y) == if (y < fy
                            || (y == fy && x < fx)) && shows(slice, offset_x as int, offset_y as int, x, y) {
                            background_pixel(ppu@, base as int, x - offset_x, y - offset_y)
                        } else {
                            pixel_at(old(frame).data@, x, y)
                        },
                decreases 256 - fx,
            {
                let px = fx as isize - offset_x;
                let py = fy as isize - offset_y;
                let ghost before = frame.data@;
                if px >= 0 && py >= 0 && px < 256 && py < 240 && slice.x1 <= px as usize && (px as usize)
                    < slice.x2 && slice.y1 <= py as usize && (py as usize) < slice.y2 {
                    let rgb = Self::background_pixel(ppu, base, px as usize, py as usize);
                    frame.set_pixel(fx, fy, rgb);
                    proof {
                        let i = pixel_index(fx as int, fy as int);
                        assert(i + 2 < FRAME_BYTES);
                        assert forall|x: int, y: int|
                            0 <= x < 256 && 0 <= y < 240 && !(x == fx && y == fy) implies #[trigger] pixel_at(
                            frame.data@,
                            x,
                            y,
                        ) == pixel_at(before, x, y) by {
                            let j = pixel_index(x, y);
                            assert(y * 256 + x != fy * 256 + fx);
                            assert(j + 2 < i || i + 2 < j);
                        }
                    }
                }
                fx = fx + 1;
            }
            fy = fy + 1;
        }
    }

    /// Draws the scrolled background: the nametable that PPUCTRL selects from the scroll
    /// offset, and its neighbour (by the mirroring) in the strip that the scroll uncovers.
    pub fn render_background(ppu: &PPU, frame: &mut Frame)
        requires
            ppu.wf(),
            old(frame).wf(),
        ensures
            final(frame).wf(),
            forall|fx: int, fy: int|
                0 <= fx < 256 && 0 <= fy < 240 ==> #[trigger] pixel_at(final(frame).data@, fx, fy)
                    == background_view(ppu@, old(frame).data@, fx, fy),
    {
        let offset_x = ppu.scroll_register.scroll_x as usize;
        let offset_y = ppu.scroll_register.scroll_y as usize;
        let nametable = ppu.controller_register.nametable();
        let (main_table, second_table): (usize, usize) = match ppu.mirroring {
            Mirroring::Vertical => if nametable == 0x2000 || nametable == 0x2800 {
                (0, 0x400)
            } else {
                (0x400, 0)
            },
            _ => if nametable == 0x2000 || nametable == 0x2400 {
                (0, 0x400)
            } else {
                (0x400, 0)
            },
        };
        let ghost before = frame.data@;
        Self::render_slice(
            ppu,
            frame,
            main_table,
            Slice::new(offset_x, offset_y, 256, 240),
            -(offset_x as isize),
            -(offset_y as isize),
        );
        if offset_x > 0 {
            Self::render_slice(
                ppu,
                frame,
                second_table,
                Slice::new(0, 0, offset_x, 240),
                256 - offset_x as isize,
                0,
            );
        } else if offset_y > 0 {
            Self::render_slice(
                ppu,
                frame,
                second_table,
                Slice::new(0, 0, 256, offset_y),
                0,
                240 - offset_y as isize,
            );
        }
        assert forall|fx: int, fy: int| 0 <= fx < 256 && 0 <= fy < 240 implies #[trigger] pixel_at(
            frame.data@,
            fx,
            fy,
        ) == background_view(ppu@, before, fx, fy) by {
            assert(pixel_at(frame.data@, fx, fy) == pixel_at(frame.data@, fx, fy));
        }
    }

    /// The colour that sprite `n` gives frame pixel (fx, fy), if any.
    fn sprite_pixel(ppu: &PPU, n: usize, fx: usize, fy: usize) -> (r: Option<(u8, u8, u8)>)
        requires
            ppu.wf(),
            n < 64,
            fx < 256,
            fy < 240,
        ensures
            r == sprite_pixel(ppu@, n as int, fx as int, fy as int),
    {
        let y0 = ppu.oam[4 * n] as usize;
        let tile = ppu.oam[4 * n + 1] as usize;
        let attr = ppu.oam[4 * n + 2];
        let x0 = ppu.oam[4 * n + 3] as usize;
        if fx < x0 || fx >= x0 + 8 || fy < y0 || fy >= y0 + 8 {
            return None;
        }
        let dx = fx - x0;
        let dy = fy - y0;
        let x = if (attr >> 6) & 1 == 1 { 7 - dx } else { dx };
        let y = if (attr >> 7) & 1 == 1 { 7 - dy } else { dy };
        let bank = ppu.controller_register.sprite_pattern_table() as usize;
        let lo = Self::chr_byte(ppu, bank + tile * 16 + y);
        let hi = Self::chr_byte(ppu, bank + tile * 16 + y + 8);
        let value = Self::pixel_value(lo, hi, x as u8);
        if value == 0 {
            None
        } else {
            let palette_idx = attr & 0b11;
            assert(palette_idx <= 3) by (bit_vector)
                requires
                    palette_idx == attr & 3u8,
            ;
            let palette = Self::sprite_pal(ppu, palette_idx);
            Some(system_color(palette[value as usize]))
        }
    }

    /// Draws the 64 sprites over the frame, the first in OAM drawn last so that it shows on
    /// top. Colour 0 of a sprite is transparent; sprite pixels past the frame's right or
    /// bottom edge are not drawn.
    pub fn render_sprites(ppu: &PPU, frame: &mut Frame)
        requires
            ppu.wf(),
            old(frame).wf(),
        ensures
            final(frame).wf(),
            forall|fx: int, fy: int|
                0 <= fx < 256 && 0 <= fy < 240 ==> #[trigger] pixel_at(final(frame).data@, fx, fy)
                    == match sprites_from(ppu@, 0, fx, fy) {
                    Some(c) => c,
                    None => pixel_at(old(frame).data@, fx, fy),
                },
    {
        let mut n: usize = 64;
        while n > 0
            invariant
                ppu.wf(),
                frame.wf(),
                n <= 64,
                forall|x: int, y: int|
                    0 <= x < 256 && 0 <= y < 240 ==> #[trigger] pixel_at(frame.data@, x, y) == match sprites_from(
                        ppu@,
                        n as int,
                        x,
                        y,
                    ) {
                        Some(c) => c,
                        None => pixel_at(old(frame).data@, x, y),
                    },
            decreases n,
        {
            n = n - 1;
            let y0 = ppu.oam[4 * n] as usize;
            let x0 = ppu.oam[4 * n + 3] as usize;
            let ghost start = frame.data@;
            let mut dy: usize = 0;
            while dy < 8
                invariant
                    ppu.wf(),
                    frame.wf(),
                    n < 64,
                    x0 == ppu@.oam[4 * n + 3],
                    y0 == ppu@.oam[4 * n as int],
                    dy <= 8,
                    forall|x: int, y: int|
                        0 <= x < 256 && 0 <= y < 240 ==> #[trigger] pixel_at(frame.data@, x, y) == if y < y0 + dy
                            && sprite_pixel(ppu@, n as int, x, y) is Some {
                            sprite_pixel(ppu@, n as int, x, y)->0
                        } else {
                            pixel_at(start, x, y)
                        },
                decreases 8 - dy,
            {
                let mut dx: usize = 0;
                while dx < 8
                    invariant
                        ppu.wf(),
                        frame.wf(),
                        n < 64,
                        x0 == ppu@.oam[4 * n + 3],
                        y0 == ppu@.oam[4 * n as int],
                        dy < 8,
                        dx <= 8,
                        forall|x: int, y: int|
                            0 <= x < 256 && 0 <= y < 240 ==> #[trigger] pixel_at(frame.data@, x, y) == if (y < y0
                                + dy || (y == y0 + dy && x < x0 + dx)) && sprite_pixel(ppu@, n as int, x, y) is Some {
                                sprite_pixel(ppu@, n as int, x, y)->0
                            } else {
                                pixel_at(start, x, y)
                            },
                    decreases 8 - dx,
                {
                    let fx = x0 + dx;
                    let fy = y0 + dy;
                    if fx < WIDTH && fy < HEIGHT {
                        let ghost before = frame.data@;
                        match Self::sprite_pixel(ppu, n, fx, fy) {
                            Some(rgb) => {
                                frame.set_pixel(fx, fy, rgb);
                                proof {
                                    let i = pixel_index(fx as int, fy as int);
                                    assert forall|x: int, y: int|
                                        0 <= x < 256 && 0 <= y < 240 && !(x == fx && y == fy) implies #[trigger] pixel_at(
                                        frame.data@,
                                        x,
                                        y,
                                    ) == pixel_at(before, x, y) by {
                                        let j = pixel_index(x, y);
                                        assert(y * 256 + x != fy * 256 + fx);
                                        assert(j + 2 < i || i + 2 < j);
                                    }
                                }
                            },
                            None => {},
                        }
                    }
                    dx = dx + 1;
                }
                dy = dy + 1;
            }
        }
    }

    /// Draws a frame: the background (see `render_background`), then the sprites over it.
    pub fn render(ppu: &PPU, frame: &mut Frame)
        requires
            ppu.wf(),
            old(frame).wf(),
        ensures
            final(frame).wf(),
            forall|fx: int, fy: int|
                0 <= fx < 256 && 0 <= fy < 240 ==> #[trigger] pixel_at(final(frame).data@, fx, fy)
                    == match sprites_from(ppu@, 0, fx, fy) {
                    Some(c) => c,
                    None => background_view(ppu@, old(frame).data@, fx, fy),
                },
    {
        Self::render_background(ppu, frame);
        Self::render_sprites(ppu, frame);
    }
}

} // verus!
