use vstd::prelude::*;

verus! {

/// The PPU address register (PPUADDR, $2006): a 14-bit VRAM address written high byte first.
///
/// Its write latch (`high_byte`: the next write is the high byte) is the one latch that
/// PPUADDR and PPUSCROLL share.
#[derive(Debug, Clone, Copy)]
pub struct AddressRegister {
    pub value: (u8, u8),
    pub high_byte: bool,
}

impl AddressRegister {
    /// The high byte never exceeds 0x3F, so that the address fits in 14 bits.
    pub open spec fn wf(self) -> bool {
        self.value.0 <= 0x3F
    }

    /// The address held.
    pub open spec fn addr(self) -> u16 {
        (self.value.0 as int * 256 + self.value.1 as int) as u16
    }

    /// Address zero, expecting the high byte next.
    pub fn new() -> (r: Self)
        ensures
            r.wf(),
            r.addr() == 0,
            r.high_byte,
    {
        AddressRegister { value: (0, 0), high_byte: true }
    }

    /// The address held.
    pub fn get(&self) -> (r: u16)
        requires
            self.wf(),
        ensures
            r == self.addr(),
            r <= 0x3FFF,
    {
        self.value.0 as u16 * 256 + self.value.1 as u16
    }

    /// Makes the next write the high byte.
    pub fn reset_high_byte(&mut self)
        ensures
            final(self).value == old(self).value,
            final(self).high_byte,
    {
        self.high_byte = true;
    }

    /// Flips the write latch without writing.
    pub fn toggle_latch(&mut self)
        ensures
            final(self).value == old(self).value,
            final(self).high_byte == !old(self).high_byte,
    {
        self.high_byte = !self.high_byte;
    }

    /// Writes one byte: the high byte (masked to 6 bits, as the address is 14 bits wide)
    /// or the low byte, as the latch says, then flips the latch.
    pub fn set(&mut self, val: u8)
        requires
            old(self).wf(),
        ensures
            final(self).wf(),
            final(self).value == if old(self).high_byte {
                (val & 0x3F, old(self).value.1)
            } else {
                (old(self).value.0, val)
            },
            final(self).high_byte == !old(self).high_byte,
    {
        if self.high_byte {
            self.value.0 = val & 0x3F;
            assert(val & 0x3F <= 0x3F) by (bit_vector);
        } else {
            self.value.1 = val;
        }
        self.high_byte = !self.high_byte;
    }

    /// Advances the address by `val`, wrapping within the 14-bit space.
    pub fn add(&mut self, val: u8)
        requires
            old(self).wf(),
        ensures
            final(self).wf(),
            final(self).addr() == (old(self).addr() + val) % 0x4000,
            final(self).high_byte == old(self).high_byte,
    {
        let lo = self.value.1;
        let hi = self.value.0;
        let sum: u16 = lo as u16 + val as u16;
        if sum >= 256 {
            self.value.1 = (sum - 256) as u8;
            if hi == 0x3F {
                self.value.0 = 0;
            } else {
                self.value.0 = hi + 1;
            }
        } else {
            self.value.1 = sum as u8;
        }
    }
}

} // verus!
