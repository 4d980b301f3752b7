use vstd::prelude::*;
use crate::byte_status::ByteStatus;

verus! {

/// The pressed buttons of a joypad, one bit each (see `Button`).
#[derive(Debug, Clone, Copy)]
pub struct ButtonStatus {
    pub value: u8,
}

impl ButtonStatus {
    /// No button pressed.
    pub fn new() -> (r: Self)
        ensures
            r.value == 0,
    {
        ButtonStatus { value: 0 }
    }
}

impl Default for ButtonStatus {
    fn default() -> (r: Self)
        ensures
            r.value == 0,
    {
        Self::new()
    }
}

impl ByteStatus for ButtonStatus {
    open spec fn bits(&self) -> u8 {
        self.value
    }

    open spec fn reset_bits() -> u8 {
        0
    }

    fn add(&mut self, bit: u8) {
        self.value = self.value | bit;
    }

    fn remove(&mut self, bit: u8) {
        self.value = self.value & !bit;
    }

    fn is_set(&self, bit: u8) -> (r: bool) {
        self.value & bit != 0
    }

    fn reset(&mut self) {
        self.value = 0;
    }

    fn set_bits(&mut self, bits: u8) {
        self.value = bits;
    }
}

} // verus!
