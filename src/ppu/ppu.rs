use vstd::prelude::*;
use crate::byte_status::ByteStatus;
use crate::cpu::mirroring::Mirroring;
use crate::flags::PPUStatus;
use crate::ppu::address_register::AddressRegister;
use crate::ppu::controller_register::ControllerRegister;
use crate::ppu::mask_register::MaskRegister;
use crate::ppu::scroll_register::ScrollRegister;
use crate::ppu::status_register::StatusRegister;

verus! {

/// Dots per scanline.
pub const DOTS_PER_LINE: u16 = 341;
/// Scanlines per frame.
pub const LINES_PER_FRAME: u16 = 262;
/// The scanline on which vertical blank starts.
pub const VBLANK_LINE: u16 = 241;

/// The mathematical state of a PPU.
pub struct PpuState {
    pub ram: Seq<u8>,
    pub palette: Seq<u8>,
    pub chr: Seq<u8>,
    pub oam: Seq<u8>,
    pub oam_address: u8,
    pub mirroring: Mirroring,
    pub ctrl: u8,
    pub mask: u8,
    pub status: u8,
    pub scroll_x: u8,
    pub scroll_y: u8,
    pub addr_hi: u8,
    pub addr_lo: u8,
    pub first_write: bool,
    pub buffer: u8,
    pub dot: u16,
    pub scanline: u16,
    pub nmi: bool,
}

/// The VRAM index that a nametable address ($2000-$3EFF) reaches under `m`.
pub open spec fn mirror_index(m: Mirroring, addr: u16) -> int {
    let a = if addr >= 0x3000 { addr - 0x1000 } else { addr as int };
    let idx = a - 0x2000;
    let table = idx / 0x400;
    match m {
        Mirroring::Vertical => if table >= 2 { idx - 0x800 } else { idx },
        Mirroring::Horizontal => if table == 1 || table == 2 {
            idx - 0x400
        } else if table == 3 {
            idx - 0x800
        } else {
            idx
        },
        Mirroring::FourScreen => idx,
    }
}

/// The palette RAM index of a palette address ($3F00-$3FFF): mirrored every 32 bytes,
/// with $3F10/$3F14/$3F18/$3F1C aliasing $3F00/$3F04/$3F08/$3F0C.
pub open spec fn palette_index(addr: u16) -> int {
    let i = (addr - 0x3F00) % 32;
    if i == 0x10 || i == 0x14 || i == 0x18 || i == 0x1C { i - 0x10 } else { i }
}

impl PpuState {
    /// The state at power-up over CHR data `chr`: zeroed memories, the power-up control
    /// byte, every other register clear, the latch expecting a first write, and the
    /// counters at dot 0 of scanline 0.
    pub open spec fn power_up(chr: Seq<u8>, mirroring: Mirroring) -> PpuState {
        PpuState {
            ram: Seq::new(2048, |i: int| 0u8),
            palette: Seq::new(32, |i: int| 0u8),
            chr,
            oam: Seq::new(256, |i: int| 0u8),
            oam_address: 0,
            mirroring,
            ctrl: 0b0010_0000,
            mask: 0,
            status: 0,
            scroll_x: 0,
            scroll_y: 0,
            addr_hi: 0,
            addr_lo: 0,
            first_write: true,
            buffer: 0,
            dot: 0,
            scanline: 0,
            nmi: false,
        }
    }

    pub open spec fn wf(self) -> bool {
        &&& self.ram.len() == 2048
        &&& self.palette.len() == 32
        &&& self.oam.len() == 256
        &&& self.addr_hi <= 0x3F
        &&& self.dot < DOTS_PER_LINE
        &&& self.scanline < LINES_PER_FRAME
        &&& self.mirroring != Mirroring::FourScreen
    }

    /// The VRAM address that PPUADDR holds.
    pub open spec fn addr(self) -> u16 {
        (self.addr_hi as int * 256 + self.addr_lo as int) as u16
    }

    /// The step of PPUADDR after a PPUDATA access.
    pub open spec fn increment(self) -> u8 {
        if self.ctrl & 0b100 != 0 { 32 } else { 1 }
    }

    /// The state with PPUADDR advanced by one step.
    pub open spec fn advanced(self) -> PpuState {
        let next = ((self.addr() + self.increment()) % 0x4000) as int;
        PpuState { addr_hi: (next / 256) as u8, addr_lo: (next % 256) as u8, ..self }
    }

    /// A CHR byte, or 0 past the end of CHR.
    pub open spec fn chr_at(self, addr: u16) -> u8 {
        if addr < self.chr.len() { self.chr[addr as int] } else { 0 }
    }

    /// A PPUDATA read: the new state and the byte returned.
    pub open spec fn read_data(self) -> (PpuState, u8) {
        let addr = self.addr();
        let s = self.advanced();
        if addr < 0x2000 {
            (PpuState { buffer: self.chr_at(addr), ..s }, self.buffer)
        } else if addr < 0x3F00 {
            (PpuState { buffer: self.ram[mirror_index(self.mirroring, addr)], ..s }, self.buffer)
        } else {
            (
                PpuState { buffer: self.ram[mirror_index(self.mirroring, (addr - 0x1000) as u16)], ..s },
                self.palette[palette_index(addr)],
            )
        }
    }

    /// A PPUDATA write: the new state, and whether the byte was stored (CHR is read-only).
    pub open spec fn write_data(self, val: u8) -> (PpuState, bool) {
        let addr = self.addr();
        let s = self.advanced();
        if addr < 0x2000 {
            (s, false)
        } else if addr < 0x3F00 {
            (PpuState { ram: self.ram.update(mirror_index(self.mirroring, addr), val), ..s }, true)
        } else {
            (PpuState { palette: self.palette.update(palette_index(addr), val), ..s }, true)
        }
    }

    /// A PPUSTATUS read: the status byte, then VBlank cleared and the write latch reset.
    pub open spec fn read_status(self) -> (PpuState, u8) {
        (PpuState { status: self.status & !0x80u8, first_write: true, ..self }, self.status)
    }

    /// A PPUCTRL write; enabling NMI while VBlank is set raises NMI at once.
    pub open spec fn write_ctrl(self, val: u8) -> PpuState {
        let raise = self.ctrl & 0x80 == 0 && val & 0x80 != 0 && self.status & 0x80 != 0;
        PpuState { ctrl: val, nmi: if raise { true } else { self.nmi }, ..self }
    }

    /// A PPUMASK write.
    pub open spec fn write_mask(self, val: u8) -> PpuState {
        PpuState { mask: val, ..self }
    }

    /// A PPUSCROLL write.
    pub open spec fn write_scroll(self, val: u8) -> PpuState {
        if self.first_write {
            PpuState { scroll_x: val, first_write: false, ..self }
        } else {
            PpuState { scroll_y: val, first_write: true, ..self }
        }
    }

    /// A PPUADDR write.
    pub open spec fn write_addr(self, val: u8) -> PpuState {
        if self.first_write {
            PpuState { addr_hi: val & 0x3F, first_write: false, ..self }
        } else {
            PpuState { addr_lo: val, first_write: true, ..self }
        }
    }

    /// An OAMADDR write.
    pub open spec fn write_oam_addr(self, val: u8) -> PpuState {
        PpuState { oam_address: val, ..self }
    }

    /// An OAMDATA write: stores at OAMADDR, which then advances.
    pub open spec fn write_oam_data(self, val: u8) -> PpuState {
        PpuState {
            oam: self.oam.update(self.oam_address as int, val),
            oam_address: ((self.oam_address + 1) % 256) as u8,
            ..self
        }
    }

    /// An OAMDATA read.
    pub open spec fn read_oam(self) -> u8 {
        self.oam[self.oam_address as int]
    }

    /// An OAM DMA of 256 bytes: byte k lands at (OAMADDR + k) mod 256; OAMADDR ends where it began.
    pub open spec fn oam_dma(self, data: Seq<u8>) -> PpuState {
        PpuState {
            oam: Seq::new(256, |j: int| data[(j - self.oam_address + 256) % 256]),
            ..self
        }
    }

    /// Advances the dot counter by `dots` (under one scanline): the new state, and whether a frame ended.
    /// Sprite-0 hit is a shortcut here: it is set at the start of VBlank (scanline 241)
    /// together with the VBlank flag, not when sprite 0 actually meets the background.
    pub open spec fn tick(self, dots: u8) -> (PpuState, bool) {
        let d = self.dot + dots;
        if d >= DOTS_PER_LINE {
            let line = self.scanline + 1;
            let s1 = PpuState { dot: (d - DOTS_PER_LINE) as u16, scanline: line as u16, ..self };
            let s2 = if line == VBLANK_LINE {
                PpuState {
                    status: (s1.status | 0x80u8) | 0x40u8,
                    nmi: if s1.ctrl & 0x80 != 0 { true } else { s1.nmi },
                    ..s1
                }
            } else {
                s1
            };
            if line >= LINES_PER_FRAME {
                (PpuState { scanline: 0, status: (s2.status & !0x80u8) & !0x40u8, nmi: false, ..s2 }, true)
            } else {
                (s2, false)
            }
        } else {
            (PpuState { dot: d as u16, ..self }, false)
        }
    }
}

/// The picture processing unit: VRAM, palette, OAM, CHR and the memory-mapped registers.
#[derive(Debug)]
pub struct PPU {
    /// The two kilobytes of nametable RAM.
    pub ram: Vec<u8>,
    /// Palette RAM.
    pub palette: Vec<u8>,
    /// Pattern tables from the cartridge.
    pub chr: Vec<u8>,
    /// Object attribute memory: 64 sprites of 4 bytes.
    pub oam: Vec<u8>,
    pub oam_address: u8,
    pub mirroring: Mirroring,
    pub controller_register: ControllerRegister,
    pub mask_register: MaskRegister,
    pub status_register: StatusRegister,
    pub scroll_register: ScrollRegister,
    pub address_register: AddressRegister,
    /// The byte that the next buffered PPUDATA read returns.
    pub internal_buffer: u8,
    /// The dot within the current scanline.
    pub cycles: u16,
    pub scanline: u16,
    /// Set when an NMI is pending.
    pub nmi: bool,
}

impl View for PPU {
    type V = PpuState;

    open spec fn view(&self) -> PpuState {
        PpuState {
            ram: self.ram@,
            palette: self.palette@,
            chr: self.chr@,
            oam: self.oam@,
            oam_address: self.oam_address,
            mirroring: self.mirroring,
            ctrl: self.controller_register.value,
            mask: self.mask_register.value,
            status: self.status_register.value,
            scroll_x: self.scroll_register.scroll_x,
            scroll_y: self.scroll_register.scroll_y,
            addr_hi: self.address_register.value.0,
            addr_lo: self.address_register.value.1,
            first_write: self.address_register.high_byte,
            buffer: self.internal_buffer,
            dot: self.cycles,
            scanline: self.scanline,
            nmi: self.nmi,
        }
    }
}

impl PPU {
    pub open spec fn wf(&self) -> bool {
        self@.wf()
    }

    /// A PPU at power-up over the given CHR data.
    pub fn new(chr: Vec<u8>, mirroring: Mirroring) -> (r: Self)
        requires
            mirroring != Mirroring::FourScreen,
        ensures
            r.wf(),
            r@ == PpuState::power_up(chr@, mirroring),
            r@.ram == Seq::new(2048, |i: int| 0u8),
            r@.palette == Seq::new(32, |i: int| 0u8),
            r@.oam == Seq::new(256, |i: int| 0u8),
            r@.chr == chr@,
            r@.mirroring == mirroring,
            r@.oam_address == 0,
            r@.ctrl == 0b0010_0000,
            r@.mask == 0,
            r@.status == 0,
            r@.scroll_x == 0,
            r@.scroll_y == 0,
            r@.addr() == 0,
            r@.first_write,
            r@.buffer == 0,
            r@.dot == 0,
            r@.scanline == 0,
            !r@.nmi,
    {
        let r = PPU {
            ram: vec![0u8; 2048],
            palette: vec![0u8; 32],
            chr,
            oam: vec![0u8; 256],
            oam_address: 0,
            mirroring,
            controller_register: ControllerRegister::new(),
            mask_register: MaskRegister::new(),
            status_register: StatusRegister::new(),
            scroll_register: ScrollRegister::new(),
            address_register: AddressRegister::new(),
            internal_buffer: 0,
            cycles: 0,
            scanline: 0,
            nmi: false,
        };
        assert(r@.ram =~= Seq::new(2048, |i: int| 0u8));
        assert(r@.palette =~= Seq::new(32, |i: int| 0u8));
        assert(r@.oam =~= Seq::new(256, |i: int| 0u8));
        r
    }

    /// A PPU over 2 KiB of zeroed CHR with horizontal mirroring.
    pub fn new_empty_rom() -> (r: Self)
        ensures
            r.wf(),
            r@.ram == Seq::new(2048, |i: int| 0u8),
            r@.chr == Seq::new(2048, |i: int| 0u8),
            r@.mirroring == Mirroring::Horizontal,
            r@.addr() == 0,
            r@.first_write,
            r@.buffer == 0,
            r@.oam_address == 0,
            r@.ctrl == 0b0010_0000,
            r@.status == 0,
            r@.dot == 0,
            r@.scanline == 0,
            !r@.nmi,
    {
        let chr = vec![0u8; 2048];
        assert(chr@ =~= Seq::new(2048, |i: int| 0u8));
        PPU::new(chr, Mirroring::Horizontal)
    }

    /// Advances the dot counter by `cycles` dots; returns true when a frame has ended.
    /// Entering scanline 241 sets VBlank and, as a shortcut, sprite-0 hit as well (no pixel
    /// test is made); NMI is raised there when PPUCTRL enables it.
    pub fn tick(&mut self, cycles: u8) -> (r: bool)
        requires
            old(self).wf(),
        ensures
            final(self).wf(),
            (final(self)@, r) == old(self)@.tick(cycles),
    {
        self.cycles = self.cycles + cycles as u16;
        if self.cycles >= DOTS_PER_LINE {
            self.cycles = self.cycles - DOTS_PER_LINE;
            self.scanline = self.scanline + 1;
            if self.scanline == VBLANK_LINE {
                self.status_register.add(PPUStatus::Vblank.as_u8());
                self.status_register.add(PPUStatus::Sprite0Hit.as_u8());
                if self.controller_register.vblank() {
                    self.nmi = true;
                }
            }
            if self.scanline >= LINES_PER_FRAME {
                self.scanline = 0;
                self.status_register.remove(PPUStatus::Vblank.as_u8());
                self.status_register.remove(PPUStatus::Sprite0Hit.as_u8());
                self.nmi = false;
                return true;
            }
        }
        false
    }

    /// The VRAM index of a nametable address ($2000-$3EFF) under this PPU's mirroring.
    pub fn mirror(&self, addr: u16) -> (r: u16)
        requires
            0x2000 <= addr <= 0x3EFF,
            self.mirroring != Mirroring::FourScreen,
        ensures
            r == mirror_index(self.mirroring, addr),
            r < 0x800,
    {
        let mirrored_vram = addr & 0x2FFF;
        assert(mirrored_vram == if addr >= 0x3000 { (addr - 0x1000) as u16 } else { addr }) by (bit_vector)
            requires
                mirrored_vram == addr & 0x2FFFu16,
                0x2000u16 <= addr <= 0x3EFFu16,
        ;
        let vram_index = mirrored_vram - 0x2000;
        let name_table = vram_index / 0x400;
        match self.mirroring {
            Mirroring::Vertical => {
                if name_table >= 2 {
                    vram_index - 0x800
                } else {
                    vram_index
                }
            },
            _ => {
                if name_table == 1 || name_table == 2 {
                    vram_index - 0x400
                } else if name_table == 3 {
                    vram_index - 0x800
                } else {
                    vram_index
                }
            },
        }
    }

    /// The palette RAM index of a palette address.
    fn palette_slot(addr: u16) -> (r: usize)
        requires
            0x3F00 <= addr,
        ensures
            r == palette_index(addr),
            r < 32,
    {
        let i = (addr - 0x3F00) % 32;
        if i == 0x10 || i == 0x14 || i == 0x18 || i == 0x1C {
            (i - 0x10) as usize
        } else {
            i as usize
        }
    }

    /// Reads PPUDATA ($2007). Pattern and nametable reads return the byte buffered by the
    /// previous read and refill the buffer; palette reads return at once and fill the buffer
    /// from the nametable byte beneath. PPUADDR then advances by 1 or 32.
    pub fn read(&mut self) -> (r: u8)
        requires
            old(self).wf(),
        ensures
            final(self).wf(),
            (final(self)@, r) == old(self)@.read_data(),
    {
        let addr = self.address_register.get();
        let inc = self.controller_register.vram_increment();
        self.address_register.add(inc);
        proof {
            let next = (addr + inc) % 0x4000;
            assert(self.address_register.value.0 == next / 256);
            assert(self.address_register.value.1 == next % 256);
        }
        if addr < 0x2000 {
            let res = self.internal_buffer;
            self.internal_buffer = if (addr as usize) < self.chr.len() {
                self.chr[addr as usize]
            } else {
                0
            };
            res
        } else if addr < 0x3F00 {
            let res = self.internal_buffer;
            let i = self.mirror(addr);
            self.internal_buffer = self.ram[i as usize];
            res
        } else {
            let i = self.mirror(addr - 0x1000);
            self.internal_buffer = self.ram[i as usize];
            self.palette[Self::palette_slot(addr)]
        }
    }

    /// Writes PPUDATA ($2007) into a nametable (through mirroring) or palette RAM, then
    /// advances PPUADDR. CHR is read-only here: a write there stores nothing and returns false.
    pub fn write(&mut self, val: u8) -> (r: bool)
        requires
            old(self).wf(),
        ensures
            final(self).wf(),
            (final(self)@, r) == old(self)@.write_data(val),
    {
        let addr = self.address_register.get();
        let stored = if addr < 0x2000 {
            false
        } else if addr < 0x3F00 {
            let i = self.mirror(addr);
            self.ram.set(i as usize, val);
            true
        } else {
            let i = Self::palette_slot(addr);
            self.palette.set(i, val);
            true
        };
        let inc = self.controller_register.vram_increment();
        self.address_register.add(inc);
        proof {
            let next = (addr + inc) % 0x4000;
            assert(self.address_register.value.0 == next / 256);
            assert(self.address_register.value.1 == next % 256);
        }
        stored
    }

    /// Reads PPUSTATUS ($2002): returns the status byte, then clears VBlank and resets
    /// the shared PPUADDR/PPUSCROLL write latch.
    pub fn read_status_register(&mut self) -> (r: u8)
        requires
            old(self).wf(),
        ensures
            final(self).wf(),
            (final(self)@, r) == old(self)@.read_status(),
    {
        let res = self.status_register.value;
        self.status_register.remove(PPUStatus::Vblank.as_u8());
        self.address_register.reset_high_byte();
        res
    }

    /// Copies 256 bytes into OAM starting at OAMADDR, wrapping around.
    pub fn write_oam_dma(&mut self, data: &[u8; 256])
        requires
            old(self).wf(),
        ensures
            final(self).wf(),
            final(self)@ == old(self)@.oam_dma(data@),
    {
        let ghost start = self.oam_address;
        let mut i: usize = 0;
        while i < 256
            invariant
                self.wf(),
                0 <= i <= 256,
                data@.len() == 256,
                self.oam_address == (start + i) % 256,
                forall|j: int|
                    0 <= j < 256 ==> #[trigger] self.oam@[j] == if (j - start + 256) % 256 < i {
                        data@[(j - start + 256) % 256]
                    } else {
                        old(self).oam@[j]
                    },
                self@ == (PpuState { oam: self@.oam, oam_address: self.oam_address, ..old(self)@ }),
            decreases 256 - i,
        {
            let a = self.oam_address;
            self.oam.set(a as usize, data[i]);
            self.oam_address = self.oam_address.wrapping_add(1);
            i = i + 1;
        }
        assert(self@.oam =~= old(self)@.oam_dma(data@).oam);
    }

    /// Reads OAMDATA ($2004) at OAMADDR.
    pub fn read_oam_data(&mut self) -> (r: u8)
        requires
            old(self).wf(),
        ensures
            *final(self) == *old(self),
            r == old(self)@.read_oam(),
    {
        self.oam[self.oam_address as usize]
    }

    /// Writes OAMDATA ($2004) at OAMADDR, which then advances.
    pub fn write_oam_data(&mut self, val: u8)
        requires
            old(self).wf(),
        ensures
            final(self).wf(),
            final(self)@ == old(self)@.write_oam_data(val),
    {
        let a = self.oam_address;
        self.oam.set(a as usize, val);
        self.oam_address = self.oam_address.wrapping_add(1);
    }

    /// Writes OAMADDR ($2003).
    pub fn write_oam_address(&mut self, val: u8)
        requires
            old(self).wf(),
        ensures
            final(self).wf(),
            final(self)@ == old(self)@.write_oam_addr(val),
    {
        self.oam_address = val;
    }

    /// Writes PPUCTRL ($2000); enabling NMI while VBlank is set raises NMI at once.
    pub fn write_control_register(&mut self, val: u8)
        requires
            old(self).wf(),
        ensures
            final(self).wf(),
            final(self)@ == old(self)@.write_ctrl(val),
    {
        let before_nmi = self.controller_register.vblank();
        self.controller_register.set_bits(val);
        if !before_nmi && self.controller_register.vblank() && self.status_register.is_set(
            PPUStatus::Vblank.as_u8(),
        ) {
            self.nmi = true;
        }
    }

    /// Writes PPUMASK ($2001).
    pub fn write_mask_register(&mut self, val: u8)
        requires
            old(self).wf(),
        ensures
            final(self).wf(),
            final(self)@ == old(self)@.write_mask(val),
    {
        self.mask_register.set_bits(val);
    }

    /// Writes PPUSCROLL ($2005): horizontal offset first, vertical second, by the shared latch.
    pub fn write_scroll_register(&mut self, val: u8)
        requires
            old(self).wf(),
        ensures
            final(self).wf(),
            final(self)@ == old(self)@.write_scroll(val),
    {
        let first = self.address_register.high_byte;
        self.scroll_register.write(val, first);
        self.address_register.toggle_latch();
    }

    /// Writes PPUADDR ($2006): high byte first, low second, by the shared latch.
    pub fn write_address_register(&mut self, val: u8)
        requires
            old(self).wf(),
        ensures
            final(self).wf(),
            final(self)@ == old(self)@.write_addr(val),
    {
        self.address_register.set(val);
    }
}

} // verus!
