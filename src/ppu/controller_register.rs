use vstd::prelude::*;
use crate::byte_status::ByteStatus;
use crate::flags::Settings;

verus! {

/// The PPU control register (PPUCTRL, $2000).
#[derive(Debug, Clone, Copy)]
pub struct ControllerRegister {
    pub value: u8,
}

impl ControllerRegister {
    /// The base nametable address that bits 0 and 1 select.
    pub open spec fn nametable_of(value: u8) -> u16 {
        (0x2000 + (value & 3) as int * 0x400) as u16
    }

    /// The power-up control byte.
    pub fn new() -> (r: Self)
        ensures
            r.value == 0b0010_0000,
    {
        ControllerRegister { value: 0b0010_0000 }
    }

    /// The step by which PPUADDR advances after each PPUDATA access: 32 if bit 2 is set, else 1.
    pub fn vram_increment(&self) -> (r: u8)
        ensures
            r == if self.value & 0b100 != 0 { 32u8 } else { 1u8 },
    {
        if self.is_set(Settings::VRAM.as_u8()) {
            32
        } else {
            1
        }
    }

    /// The pattern table of 8x8 sprites: $1000 if bit 3 is set, else $0000.
    pub fn sprite_pattern_table(&self) -> (r: u16)
        ensures
            r == if self.value & 0b1000 != 0 { 0x1000u16 } else { 0u16 },
    {
        if self.is_set(Settings::Sprite.as_u8()) {
            0x1000
        } else {
            0
        }
    }

    /// The pattern table of the background: $1000 if bit 4 is set, else $0000.
    pub fn background_pattern_table(&self) -> (r: u16)
        ensures
            r == if self.value & 0b1_0000 != 0 { 0x1000u16 } else { 0u16 },
    {
        if self.is_set(Settings::Background.as_u8()) {
            0x1000
        } else {
            0
        }
    }

    /// The sprite height: 16 if bit 5 is set, else 8.
    pub fn sprite_size(&self) -> (r: u8)
        ensures
            r == if self.value & 0b10_0000 != 0 { 16u8 } else { 8u8 },
    {
        if self.is_set(Settings::SpriteSize.as_u8()) {
            16
        } else {
            8
        }
    }

    /// The base nametable address: $2000, $2400, $2800 or $2C00.
    pub fn nametable(&self) -> (r: u16)
        ensures
            r == Self::nametable_of(self.value),
    {
        let v = self.value;
        let sel = v & 0b11;
        if sel == 0 {
            0x2000
        } else if sel == 1 {
            0x2400
        } else if sel == 2 {
            0x2800
        } else {
            assert(sel == 3) by (bit_vector)
                requires
                    sel == v & 3u8,
                    sel != 0,
                    sel != 1,
                    sel != 2,
            ;
            0x2C00
        }
    }

    /// Whether an NMI is raised at the start of vertical blank (bit 7).
    pub fn vblank(&self) -> (r: bool)
        ensures
            r == (self.value & 0x80 != 0),
    {
        self.is_set(Settings::Vblank.as_u8())
    }

    /// The master/slave select bit (bit 6).
    pub fn master_slave(&self) -> (r: bool)
        ensures
            r == (self.value & 0x40 != 0),
    {
        self.is_set(Settings::MasterSlave.as_u8())
    }
}

impl ByteStatus for ControllerRegister {
    open spec fn bits(&self) -> u8 {
        self.value
    }

    open spec fn reset_bits() -> u8 {
        0
    }

    fn add(&mut self, bit: u8) {
        self.value = self.value | bit;
    }

    fn remove(&mut self, bit: u8) {
        self.value = self.value & !bit;
    }

    fn is_set(&self, bit: u8) -> (r: bool) {
        self.value & bit != 0
    }

    fn reset(&mut self) {
        self.value = 0;
    }

    fn set_bits(&mut self, bits: u8) {
        self.value = bits;
    }
}

} // verus!
