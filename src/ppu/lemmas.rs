use vstd::prelude::*;
use crate::cpu::mirroring::Mirroring;
use crate::ppu::ppu::{mirror_index, PpuState};

verus! {

/// A nametable address reaches a byte inside the 2 KiB of VRAM under horizontal or
/// vertical mirroring.
pub proof fn lemma_mirror_in_range(m: Mirroring, addr: u16)
    requires
        0x2000 <= addr <= 0x3EFF,
        m != Mirroring::FourScreen,
    ensures
        0 <= mirror_index(m, addr) < 0x800,
{
}

/// Ticking keeps the counters in range: the dot within 0..=340 and the scanline within 0..=261.
pub proof fn lemma_tick_keeps_counters(s: PpuState, dots: u8)
    requires
        s.wf(),
    ensures
        s.tick(dots).0.wf(),
        s.tick(dots).0.dot <= 340,
        s.tick(dots).0.scanline <= 261,
{
}

/// A PPUDATA read from a nametable address ($2000-$2FFF) returns the byte buffered by the
/// previous read, and buffers the byte at the current address for the next one.
pub proof fn lemma_vram_read_is_buffered(s: PpuState)
    requires
        s.wf(),
        0x2000 <= s.addr() <= 0x2FFF,
    ensures
        s.read_data().1 == s.buffer,
        s.read_data().0.buffer == s.ram[mirror_index(s.mirroring, s.addr())],
{
}

/// Reading PPUSTATUS clears VBlank and resets the write latch: two reads in a row see
/// bit 7 set, then clear.
pub proof fn lemma_status_read_twice(s: PpuState)
    requires
        s.status & 0x80 != 0,
    ensures
        ({
            let (s1, r1) = s.read_status();
            let (s2, r2) = s1.read_status();
            &&& r1 & 0x80 != 0
            &&& r2 & 0x80 == 0
            &&& s1.status & 0x80 == 0
            &&& s1.first_write
            &&& s2.first_write
        }),
{
    let st = s.status;
    assert((st & !0x80u8) & 0x80u8 == 0 && ((st & !0x80u8) & !0x80u8) == (st & !0x80u8)) by (bit_vector);
}

/// Writing a byte through PPUDATA at a nametable address, then resetting the latch,
/// pointing PPUADDR at the same address again and reading PPUDATA twice (the first read
/// only fills the buffer) yields the byte written. The second read must not reach
/// palette space, so the address plus one step stays below $3F00.
pub proof fn lemma_vram_round_trip(s: PpuState, hi: u8, lo: u8, d: u8)
    requires
        s.wf(),
        s.first_write,
        0x2000 <= (hi & 0x3F) as int * 256 + lo,
        (hi & 0x3F) as int * 256 + lo + s.increment() < 0x3F00,
    ensures
        ({
            let s1 = s.write_addr(hi).write_addr(lo);
            let s2 = s1.write_data(d).0.read_status().0;
            let s3 = s2.write_addr(hi).write_addr(lo);
            let (s4, _) = s3.read_data();
            s4.read_data().1 == d
        }),
{
    let a = (hi & 0x3F) as int * 256 + lo;
    assert(hi & 0x3F <= 0x3F) by (bit_vector);
    let s1 = s.write_addr(hi).write_addr(lo);
    assert(s1.addr() == a);
    lemma_mirror_in_range(s.mirroring, a as u16);
    let s2 = s1.write_data(d).0.read_status().0;
    assert(s2.ram[mirror_index(s.mirroring, a as u16)] == d);
    let s3 = s2.write_addr(hi).write_addr(lo);
    assert(s3.addr() == a);
    let (s4, _) = s3.read_data();
    assert(s4.buffer == d);
    assert(s4.addr() == (a + s.increment()) % 0x4000);
}

} // verus!
