use vstd::prelude::*;

verus! {

/// A two-byte PPU register written a byte at a time, high byte first.
#[derive(Debug, Clone, Copy)]
pub struct PPURegister {
    pub value: (u8, u8),
}

impl PPURegister {
    /// The 16-bit value held.
    pub open spec fn word(self) -> int {
        self.value.0 as int * 256 + self.value.1 as int
    }
}

} // verus!
