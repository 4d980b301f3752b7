use vstd::prelude::*;
use crate::byte_status::ByteStatus;
use crate::flags::Mask;

verus! {

/// The PPU mask register (PPUMASK, $2001).
#[derive(Debug, Clone, Copy)]
pub struct MaskRegister {
    pub value: u8,
}

/// A colour that the mask register can emphasise.
#[derive(Debug, Clone, Copy, PartialEq, Eq, Structural)]
pub enum Color {
    Red,
    Green,
    Blue,
}

/// The emphasised colours of a mask byte, in the order red, green, blue.
pub open spec fn emphasis_of(value: u8) -> Seq<Color> {
    let r = if value & 0x20 != 0 { seq![Color::Red] } else { Seq::empty() };
    let g = if value & 0x40 != 0 { seq![Color::Green] } else { Seq::empty() };
    let b = if value & 0x80 != 0 { seq![Color::Blue] } else { Seq::empty() };
    r + g + b
}

impl MaskRegister {
    /// A mask register with every bit clear.
    pub fn new() -> (r: Self)
        ensures
            r.value == 0,
    {
        MaskRegister { value: 0 }
    }

    /// The colours whose emphasis bit is set.
    pub fn color_emphasis(&self) -> (r: Vec<Color>)
        ensures
            r@ == emphasis_of(self.value),
    {
        let mut result: Vec<Color> = Vec::new();
        if self.is_set(Mask::Red.as_u8()) {
            result.push(Color::Red);
        }
        if self.is_set(Mask::Green.as_u8()) {
            result.push(Color::Green);
        }
        if self.is_set(Mask::Blue.as_u8()) {
            result.push(Color::Blue);
        }
        assert(result@ =~= emphasis_of(self.value));
        result
    }
}

impl ByteStatus for MaskRegister {
    open spec fn bits(&self) -> u8 {
        self.value
    }

    open spec fn reset_bits() -> u8 {
        0
    }

    fn add(&mut self, bit: u8) {
        self.value = self.value | bit;
    }

    fn remove(&mut self, bit: u8) {
        self.value = self.value & !bit;
    }

    fn is_set(&self, bit: u8) -> (r: bool) {
        self.value & bit != 0
    }

    fn reset(&mut self) {
        self.value = 0;
    }

    fn set_bits(&mut self, bits: u8) {
        self.value = bits;
    }
}

} // verus!
