use vstd::prelude::*;
use crate::cpu::cartridge::Cartridge;
use crate::cpu::mirroring::Mirroring;
use crate::ppu::ppu::{PPU, PpuState};
use crate::render::input::joypad::{Joypad, JoypadState};

verus! {

/// A write that the bus refused; nothing was stored.
#[derive(Debug, Clone, Copy, PartialEq, Eq, Structural)]
pub enum WriteError {
    /// A write to program ROM ($8000-$FFFF).
    ProgramRom,
    /// A PPUDATA write while PPUADDR points into pattern-table ROM.
    CharacterRom,
}

/// Size of CPU RAM; it is mirrored up to $1FFF.
pub const RAM_SIZE: usize = 2048;

/// The mathematical state of the bus and what it owns.
pub struct BusState {
    pub ram: Seq<u8>,
    pub prg: Seq<u8>,
    pub ppu: PpuState,
    pub joypad: JoypadState,
    pub cycles: u64,
    pub frame_ready: bool,
}

impl BusState {
    pub open spec fn wf(self) -> bool {
        &&& self.ram.len() == RAM_SIZE
        &&& self.ppu.wf()
        &&& self.joypad.wf()
    }

    /// The PRG ROM byte at a cartridge address: offset from $8000 modulo the ROM size,
    /// so that a 16 KiB ROM shows twice. An empty ROM reads as 0.
    pub open spec fn rom_byte(self, addr: u16) -> u8 {
        if self.prg.len() == 0 {
            0
        } else {
            self.prg[(addr - 0x8000) % (self.prg.len() as int)]
        }
    }

    /// A CPU read: the new state (some registers change when read) and the byte.
    #[verifier::opaque]
    pub open spec fn read(self, addr: u16) -> (BusState, u8) {
        if addr < 0x2000 {
            (self, self.ram[addr as int % 0x800])
        } else if addr < 0x4000 {
            let reg = addr & 7u16;
            if reg == 2 {
                let (p, v) = self.ppu.read_status();
                (BusState { ppu: p, ..self }, v)
            } else if reg == 4 {
                (self, self.ppu.read_oam())
            } else if reg == 7 {
                let (p, v) = self.ppu.read_data();
                (BusState { ppu: p, ..self }, v)
            } else {
                (self, 0)
            }
        } else if addr == 0x4016 {
            let (j, v) = self.joypad.read();
            (BusState { joypad: j, ..self }, v)
        } else if addr >= 0x8000 {
            (self, self.rom_byte(addr))
        } else {
            (self, 0)
        }
    }

    /// A little-endian 16-bit read; the high byte comes from the next address (wrapping).
    pub open spec fn read_u16(self, addr: u16) -> (BusState, u16) {
        let (b1, lo) = self.read(addr);
        let (b2, hi) = b1.read(((addr + 1) % 0x10000) as u16);
        (b2, (hi as int * 256 + lo as int) as u16)
    }

    /// The bytes of `n` successive reads from `base` on, in order, and the state after them.
    pub open spec fn dma_collect(self, base: u16, n: nat) -> (BusState, Seq<u8>)
        decreases n,
    {
        if n == 0 {
            (self, Seq::empty())
        } else {
            let (b1, s) = self.dma_collect(base, (n - 1) as nat);
            let (b2, v) = b1.read((base + n - 1) as u16);
            (b2, s.push(v))
        }
    }

    /// An OAM DMA from page `page`: 256 reads through the bus, then the copy into OAM.
    /// The copy takes no cycles of its own: the CPU is not stalled while it runs.
    pub open spec fn dma(self, page: u8) -> BusState {
        let (b1, data) = self.dma_collect((page as int * 256) as u16, 256);
        BusState { ppu: b1.ppu.oam_dma(data), ..b1 }
    }

    /// A CPU write: the new state, and whether it was stored.
    #[verifier::opaque]
    pub open spec fn write(self, addr: u16, val: u8) -> (BusState, Result<(), WriteError>) {
        if addr < 0x2000 {
            (BusState { ram: self.ram.update(addr as int % 0x800, val), ..self }, Ok(()))
        } else if addr < 0x4000 {
            let reg = addr & 7u16;
            if reg == 0 {
                (BusState { ppu: self.ppu.write_ctrl(val), ..self }, Ok(()))
            } else if reg == 1 {
                (BusState { ppu: self.ppu.write_mask(val), ..self }, Ok(()))
            } else if reg == 3 {
                (BusState { ppu: self.ppu.write_oam_addr(val), ..self }, Ok(()))
            } else if reg == 4 {
                (BusState { ppu: self.ppu.write_oam_data(val), ..self }, Ok(()))
            } else if reg == 5 {
                (BusState { ppu: self.ppu.write_scroll(val), ..self }, Ok(()))
            } else if reg == 6 {
                (BusState { ppu: self.ppu.write_addr(val), ..self }, Ok(()))
            } else if reg == 7 {
                let (p, stored) = self.ppu.write_data(val);
                (BusState { ppu: p, ..self }, if stored { Ok(()) } else { Err(WriteError::CharacterRom) })
            } else {
                (self, Ok(()))
            }
        } else if addr == 0x4014 {
            (self.dma(val), Ok(()))
        } else if addr == 0x4016 {
            (BusState { joypad: self.joypad.write(val), ..self }, Ok(()))
        } else if addr >= 0x8000 {
            (self, Err(WriteError::ProgramRom))
        } else {
            (self, Ok(()))
        }
    }

    /// A little-endian 16-bit write, low byte first; refused bytes are dropped.
    pub open spec fn write_u16(self, addr: u16, val: u16) -> BusState {
        let b1 = self.write(addr, (val % 256) as u8).0;
        b1.write(((addr + 1) % 0x10000) as u16, (val / 256) as u8).0
    }

    /// `cycles` CPU cycles pass: the counter grows (saturating), the PPU runs three dots per
    /// cycle, and a rising NMI edge marks a frame as ready.
    pub open spec fn tick(self, cycles: u8) -> BusState {
        let (p, _) = self.ppu.tick((cycles * 3) as u8);
        BusState {
            cycles: if self.cycles + cycles > u64::MAX { u64::MAX } else { (self.cycles + cycles) as u64 },
            ppu: p,
            frame_ready: self.frame_ready || (!self.ppu.nmi && p.nmi),
            ..self
        }
    }
}

/// A read below $2000 returns the mirrored RAM byte and changes nothing.
pub proof fn lemma_read_ram(b: BusState, addr: u16)
    requires
        addr < 0x2000,
    ensures
        b.read(addr) == (b, b.ram[addr as int % 0x800]),
{
    reveal(BusState::read);
}

/// A read at $8000 or above returns the ROM byte and changes nothing.
pub proof fn lemma_read_rom(b: BusState, addr: u16)
    requires
        addr >= 0x8000,
    ensures
        b.read(addr) == (b, b.rom_byte(addr)),
{
    reveal(BusState::read);
}

/// A write below $2000 stores into the mirrored RAM byte and nothing else.
pub proof fn lemma_write_ram(b: BusState, addr: u16, val: u8)
    requires
        addr < 0x2000,
    ensures
        b.write(addr, val) == (BusState { ram: b.ram.update(addr as int % 0x800, val), ..b }, Ok::<(), WriteError>(())),
{
    reveal(BusState::write);
}


/// The byte at a RAM or ROM address, which reads without side effects.
pub open spec fn plain_byte(b: BusState, addr: int) -> u8 {
    if addr < 0x2000 { b.ram[addr % 0x800] } else { b.rom_byte(addr as u16) }
}

/// Reading `n` bytes from RAM or ROM changes nothing and yields those bytes.
pub proof fn lemma_collect_plain(b: BusState, base: u16, n: nat)
    requires
        base + n <= 0x2000 || (base >= 0x8000 && base + n <= 0x10000),
    ensures
        b.dma_collect(base, n).0 == b,
        b.dma_collect(base, n).1 == Seq::new(n, |k: int| plain_byte(b, base + k)),
    decreases n,
{
    if n > 0 {
        lemma_collect_plain(b, base, (n - 1) as nat);
        let addr = (base + n - 1) as u16;
        if base + n <= 0x2000 {
            lemma_read_ram(b, addr);
        } else {
            lemma_read_rom(b, addr);
        }
        assert(b.dma_collect(base, n).1 =~= Seq::new(n, |k: int| plain_byte(b, base + k)));
    }
}

/// After an OAM DMA from a RAM or ROM page, OAM byte (OAMADDR + k) mod 256 holds byte k
/// of the page, for every k below 256.
pub proof fn lemma_dma_copies_page(b: BusState, page: u8)
    requires
        page < 0x20 || page >= 0x80,
    ensures
        forall|k: int|
            0 <= k < 256 ==> #[trigger] b.dma(page).ppu.oam[(b.ppu.oam_address + k) % 256] == plain_byte(
                b,
                page * 256 + k,
            ),
{
    let base = (page as int * 256) as u16;
    lemma_collect_plain(b, base, 256);
    assert forall|k: int| 0 <= k < 256 implies #[trigger] b.dma(page).ppu.oam[(b.ppu.oam_address + k) % 256]
        == plain_byte(b, page * 256 + k) by {
        let j = (b.ppu.oam_address + k) % 256;
        assert((j - b.ppu.oam_address + 256) % 256 == k);
    }
}


/// The CPU address bus: 2 KiB of RAM, the PPU registers, the joypad and PRG ROM.
#[derive(Debug)]
pub struct Bus {
    pub ram: Vec<u8>,
    pub prg: Vec<u8>,
    pub ppu: PPU,
    pub joypad: Joypad,
    /// CPU cycles since power-up.
    pub cycles: u64,
    /// Set when an NMI edge was seen and the host has not yet been told of the frame.
    pub frame_ready: bool,
}

impl View for Bus {
    type V = BusState;

    open spec fn view(&self) -> BusState {
        BusState {
            ram: self.ram@,
            prg: self.prg@,
            ppu: self.ppu@,
            joypad: self.joypad@,
            cycles: self.cycles,
            frame_ready: self.frame_ready,
        }
    }
}

impl Bus {
    pub open spec fn wf(&self) -> bool {
        self@.wf()
    }

    /// A bus over a cartridge, with zeroed RAM and a PPU at power-up.
    pub fn new(cartridge: Cartridge) -> (r: Bus)
        requires
            cartridge.mirroring != Mirroring::FourScreen,
        ensures
            r.wf(),
            r@.ram == Seq::new(RAM_SIZE as nat, |i: int| 0u8),
            r@.prg == cartridge.prg_rom@,
            r@.ppu == PpuState::power_up(cartridge.chr_rom@, cartridge.mirroring),
            r@.cycles == 0,
            !r@.frame_ready,
            !r@.ppu.nmi,
            r@.joypad == (JoypadState { strobe: false, index: 0, buttons: 0 }),
    {
        let ppu = PPU::new(cartridge.chr_rom, cartridge.mirroring);
        let ram = vec![0u8; RAM_SIZE];
        assert(ram@ =~= Seq::new(RAM_SIZE as nat, |i: int| 0u8));
        Bus { ram, prg: cartridge.prg_rom, ppu, joypad: Joypad::new(), cycles: 0, frame_ready: false }
    }

    /// Lets `cycles` CPU cycles pass (at most 85, so that the PPU's dots fit a byte).
    pub fn tick(&mut self, cycles: u8)
        requires
            old(self).wf(),
            cycles <= 85,
        ensures
            final(self).wf(),
            final(self)@ == old(self)@.tick(cycles),
    {
        self.cycles = self.cycles.saturating_add(cycles as u64);
        let nmi_before = self.ppu.nmi;
        self.ppu.tick(cycles * 3);
        let nmi_after = self.ppu.nmi;
        if !nmi_before && nmi_after {
            self.frame_ready = true;
        }
    }

    /// Takes the pending NMI: returns whether one was pending and clears it, so that one
    /// VBlank is serviced once.
    pub fn nmi_status(&mut self) -> (r: bool)
        requires
            old(self).wf(),
        ensures
            final(self).wf(),
            r == old(self)@.ppu.nmi,
            final(self)@ == (BusState { ppu: PpuState { nmi: false, ..old(self)@.ppu }, ..old(self)@ }),
    {
        let r = self.ppu.nmi;
        self.ppu.nmi = false;
        r
    }

    /// Takes the frame-ready mark: returns whether a frame was ready and clears it.
    pub fn poll_frame(&mut self) -> (r: bool)
        ensures
            r == old(self)@.frame_ready,
            final(self)@ == (BusState { frame_ready: false, ..old(self)@ }),
    {
        let r = self.frame_ready;
        self.frame_ready = false;
        r
    }

    /// Reads a byte of PRG ROM.
    fn read_from_rom(&self, addr: u16) -> (r: u8)
        requires
            addr >= 0x8000,
        ensures
            r == self@.rom_byte(addr),
    {
        let len = self.prg.len();
        if len == 0 {
            0
        } else {
            let adjusted = (addr - 0x8000) as usize;
            self.prg[adjusted % len]
        }
    }

    /// Reads a byte at a CPU address; PPUSTATUS, PPUDATA and the joypad change when read.
    pub fn read(&mut self, addr: u16) -> (r: u8)
        requires
            old(self).wf(),
        ensures
            final(self).wf(),
            (final(self)@, r) == old(self)@.read(addr),
    {
        reveal(BusState::read);
        if addr < 0x2000 {
            self.ram[(addr % 0x800) as usize]
        } else if addr < 0x4000 {
            let reg = addr & 7;
            if reg == 2 {
                self.ppu.read_status_register()
            } else if reg == 4 {
                self.ppu.read_oam_data()
            } else if reg == 7 {
                self.ppu.read()
            } else {
                0
            }
        } else if addr == 0x4016 {
            self.joypad.read()
        } else if addr >= 0x8000 {
            self.read_from_rom(addr)
        } else {
            0
        }
    }

    /// Reads a little-endian 16-bit value.
    pub fn read_u16(&mut self, addr: u16) -> (r: u16)
        requires
            old(self).wf(),
        ensures
            final(self).wf(),
            (final(self)@, r) == old(self)@.read_u16(addr),
    {
        let lo = self.read(addr);
        let hi = self.read(addr.wrapping_add(1));
        hi as u16 * 256 + lo as u16
    }

    /// Copies page `page` into OAM through 256 bus reads.
    fn oam_dma(&mut self, page: u8)
        requires
            old(self).wf(),
        ensures
            final(self).wf(),
            final(self)@ == old(self)@.dma(page),
    {
        let mut buffer = [0u8; 256];
        let base: u16 = page as u16 * 256;
        let mut i: u16 = 0;
        while i < 256
            invariant
                self.wf(),
                i <= 256,
                base == page * 256,
                buffer@.len() == 256,
                self@ == old(self)@.dma_collect(base, i as nat).0,
                buffer@.subrange(0, i as int) == old(self)@.dma_collect(base, i as nat).1,
            decreases 256 - i,
        {
            let v = self.read(base + i);
            buffer[i as usize] = v;
            proof {
                let prev = old(self)@.dma_collect(base, i as nat);
                assert(buffer@.subrange(0, i + 1) =~= prev.1.push(v));
            }
            i = i + 1;
        }
        assert(buffer@.subrange(0, 256) =~= buffer@);
        self.ppu.write_oam_dma(&buffer);
    }

    /// Writes a byte at a CPU address. Writes to ROM are refused and store nothing.
    pub fn write(&mut self, addr: u16, val: u8) -> (r: Result<(), WriteError>)
        requires
            old(self).wf(),
        ensures
            final(self).wf(),
            (final(self)@, r) == old(self)@.write(addr, val),
    {
        reveal(BusState::write);
        if addr < 0x2000 {
            self.ram.set((addr % 0x800) as usize, val);
            Ok(())
        } else if addr < 0x4000 {
            let reg = addr & 7;
            if reg == 0 {
                self.ppu.write_control_register(val);
            } else if reg == 1 {
                self.ppu.write_mask_register(val);
            } else if reg == 3 {
                self.ppu.write_oam_address(val);
            } else if reg == 4 {
                self.ppu.write_oam_data(val);
            } else if reg == 5 {
                self.ppu.write_scroll_register(val);
            } else if reg == 6 {
                self.ppu.write_address_register(val);
            } else if reg == 7 {
                if !self.ppu.write(val) {
                    return Err(WriteError::CharacterRom);
                }
            }
            Ok(())
        } else if addr == 0x4014 {
            self.oam_dma(val);
            Ok(())
        } else if addr == 0x4016 {
            self.joypad.write(val);
            Ok(())
        } else if addr >= 0x8000 {
            Err(WriteError::ProgramRom)
        } else {
            Ok(())
        }
    }

    /// Writes a little-endian 16-bit value, low byte first; refused bytes are dropped.
    pub fn write_u16(&mut self, addr: u16, val: u16)
        requires
            old(self).wf(),
        ensures
            final(self).wf(),
            final(self)@ == old(self)@.write_u16(addr, val),
    {
        let _ = self.write(addr, (val % 256) as u8);
        let _ = self.write(addr.wrapping_add(1), (val / 256) as u8);
    }
}

} // verus!
