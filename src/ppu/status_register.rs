use vstd::prelude::*;
use crate::byte_status::ByteStatus;

verus! {

/// The PPU status register (PPUSTATUS, $2002).
#[derive(Debug, Clone, Copy)]
pub struct StatusRegister {
    pub value: u8,
}

impl StatusRegister {
    /// A status register with every bit clear.
    pub fn new() -> (r: Self)
        ensures
            r.value == 0,
    {
        StatusRegister { value: 0 }
    }
}

impl ByteStatus for StatusRegister {
    open spec fn bits(&self) -> u8 {
        self.value
    }

    open spec fn reset_bits() -> u8 {
        0
    }

    fn add(&mut self, bit: u8) {
        self.value = self.value | bit;
    }

    fn remove(&mut self, bit: u8) {
        self.value = self.value & !bit;
    }

    fn is_set(&self, bit: u8) -> (r: bool) {
        self.value & bit != 0
    }

    fn reset(&mut self) {
        self.value = 0;
    }

    fn set_bits(&mut self, bits: u8) {
        self.value = bits;
    }
}

} // verus!
