use vstd::prelude::*;

verus! {

/// Flags of the processor status register P.
#[derive(Debug, Clone, Copy, PartialEq, Eq, Structural)]
pub enum Status {
    Carry,
    Zero,
    InterruptDisable,
    Decimal,
    Break,
    Break2,
    Overflow,
    Negative,
}

impl Status {
    /// The bit that this variant stands for.
    pub open spec fn bit(self) -> u8 {
        match self {
            Status::Carry => 0b0000_0001,
            Status::Zero => 0b0000_0010,
            Status::InterruptDisable => 0b0000_0100,
            Status::Decimal => 0b0000_1000,
            Status::Break => 0b0001_0000,
            Status::Break2 => 0b0010_0000,
            Status::Overflow => 0b0100_0000,
            Status::Negative => 0b1000_0000,
        }
    }

    /// The mask of this variant within its byte.
    pub fn as_u8(self) -> (r: u8)
        ensures
            r == self.bit(),
    {
        match self {
            Status::Carry => 0b0000_0001,
            Status::Zero => 0b0000_0010,
            Status::InterruptDisable => 0b0000_0100,
            Status::Decimal => 0b0000_1000,
            Status::Break => 0b0001_0000,
            Status::Break2 => 0b0010_0000,
            Status::Overflow => 0b0100_0000,
            Status::Negative => 0b1000_0000,
        }
    }
}

/// Bits of the PPU control register (PPUCTRL, $2000).
#[derive(Debug, Clone, Copy, PartialEq, Eq, Structural)]
pub enum Settings {
    Nametable1,
    Nametable2,
    VRAM,
    Sprite,
    Background,
    SpriteSize,
    MasterSlave,
    Vblank,
}

impl Settings {
    /// The bit that this variant stands for.
    pub open spec fn bit(self) -> u8 {
        match self {
            Settings::Nametable1 => 0b0000_0001,
            Settings::Nametable2 => 0b0000_0010,
            Settings::VRAM => 0b0000_0100,
            Settings::Sprite => 0b0000_1000,
            Settings::Background => 0b0001_0000,
            Settings::SpriteSize => 0b0010_0000,
            Settings::MasterSlave => 0b0100_0000,
            Settings::Vblank => 0b1000_0000,
        }
    }

    /// The mask of this variant within its byte.
    pub fn as_u8(self) -> (r: u8)
        ensures
            r == self.bit(),
    {
        match self {
            Settings::Nametable1 => 0b0000_0001,
            Settings::Nametable2 => 0b0000_0010,
            Settings::VRAM => 0b0000_0100,
            Settings::Sprite => 0b0000_1000,
            Settings::Background => 0b0001_0000,
            Settings::SpriteSize => 0b0010_0000,
            Settings::MasterSlave => 0b0100_0000,
            Settings::Vblank => 0b1000_0000,
        }
    }
}

/// Bits of the PPU mask register (PPUMASK, $2001).
#[derive(Debug, Clone, Copy, PartialEq, Eq, Structural)]
pub enum Mask {
    Greyscale,
    BackgroundLeft,
    SpriteLeft,
    Background,
    Sprite,
    Red,
    Green,
    Blue,
}

impl Mask {
    /// The bit that this variant stands for.
    pub open spec fn bit(self) -> u8 {
        match self {
            Mask::Greyscale => 0b0000_0001,
            Mask::BackgroundLeft => 0b0000_0010,
            Mask::SpriteLeft => 0b0000_0100,
            Mask::Background => 0b0000_1000,
            Mask::Sprite => 0b0001_0000,
            Mask::Red => 0b0010_0000,
            Mask::Green => 0b0100_0000,
            Mask::Blue => 0b1000_0000,
        }
    }

    /// The mask of this variant within its byte.
    pub fn as_u8(self) -> (r: u8)
        ensures
            r == self.bit(),
    {
        match self {
            Mask::Greyscale => 0b0000_0001,
            Mask::BackgroundLeft => 0b0000_0010,
            Mask::SpriteLeft => 0b0000_0100,
            Mask::Background => 0b0000_1000,
            Mask::Sprite => 0b0001_0000,
            Mask::Red => 0b0010_0000,
            Mask::Green => 0b0100_0000,
            Mask::Blue => 0b1000_0000,
        }
    }
}

/// Bits of the PPU status register (PPUSTATUS, $2002).
#[derive(Debug, Clone, Copy, PartialEq, Eq, Structural)]
pub enum PPUStatus {
    SpriteOverflow,
    Sprite0Hit,
    Vblank,
}

impl PPUStatus {
    /// The bit that this variant stands for.
    pub open spec fn bit(self) -> u8 {
        match self {
            PPUStatus::SpriteOverflow => 0b0010_0000,
            PPUStatus::Sprite0Hit => 0b0100_0000,
            PPUStatus::Vblank => 0b1000_0000,
        }
    }

    /// The mask of this variant within its byte.
    pub fn as_u8(self) -> (r: u8)
        ensures
            r == self.bit(),
    {
        match self {
            PPUStatus::SpriteOverflow => 0b0010_0000,
            PPUStatus::Sprite0Hit => 0b0100_0000,
            PPUStatus::Vblank => 0b1000_0000,
        }
    }
}

/// Buttons of a joypad, each given by its bit in the button byte.
#[derive(Debug, Clone, Copy, PartialEq, Eq, Structural)]
pub enum Button {
    RIGHT,
    LEFT,
    DOWN,
    UP,
    START,
    SELECT,
    B,
    A,
}

impl Button {
    /// The bit that this variant stands for.
    pub open spec fn bit(self) -> u8 {
        match self {
            Button::RIGHT => 0b1000_0000,
            Button::LEFT => 0b0100_0000,
            Button::DOWN => 0b0010_0000,
            Button::UP => 0b0001_0000,
            Button::START => 0b0000_1000,
            Button::SELECT => 0b0000_0100,
            Button::B => 0b0000_0010,
            Button::A => 0b0000_0001,
        }
    }

    /// The mask of this variant within its byte.
    pub fn as_u8(self) -> (r: u8)
        ensures
            r == self.bit(),
    {
        match self {
            Button::RIGHT => 0b1000_0000,
            Button::LEFT => 0b0100_0000,
            Button::DOWN => 0b0010_0000,
            Button::UP => 0b0001_0000,
            Button::START => 0b0000_1000,
            Button::SELECT => 0b0000_0100,
            Button::B => 0b0000_0010,
            Button::A => 0b0000_0001,
        }
    }
}

} // verus!
