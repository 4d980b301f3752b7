use vstd::prelude::*;
use crate::byte_status::ByteStatus;

verus! {

/// The processor status register P.
#[derive(Debug, Clone, Copy)]
pub struct CPUStatus {
    pub value: u8,
}

impl CPUStatus {
    /// A status register as after reset: interrupts disabled and the always-set bit on.
    pub fn new() -> (r: Self)
        ensures
            r.value == 0b0010_0100,
    {
        CPUStatus { value: 0b0010_0100 }
    }

    /// Sets the bits of `flag` when `cond` holds and clears them otherwise.
    pub fn set(&mut self, flag: u8, cond: bool)
        ensures
            final(self).value == if cond {
                old(self).value | flag
            } else {
                old(self).value & !flag
            },
    {
        if cond {
            self.add(flag);
        } else {
            self.remove(flag);
        }
    }
}

impl Default for CPUStatus {
    fn default() -> (r: Self)
        ensures
            r.value == 0b0010_0100,
    {
        Self::new()
    }
}

impl ByteStatus for CPUStatus {
    open spec fn bits(&self) -> u8 {
        self.value
    }

    open spec fn reset_bits() -> u8 {
        0b0010_0100
    }

    fn add(&mut self, bit: u8) {
        self.value = self.value | bit;
    }

    fn remove(&mut self, bit: u8) {
        self.value = self.value & !bit;
    }

    fn is_set(&self, bit: u8) -> (r: bool) {
        self.value & bit != 0
    }

    fn reset(&mut self) {
        self.value = 0b0010_0100;
    }

    fn set_bits(&mut self, bits: u8) {
        self.value = bits;
    }
}

} // verus!
