use vstd::prelude::*;

verus! {

/// One of the 8-bit registers A, X and Y.
#[derive(Debug, Clone, Copy)]
pub struct Register {
    pub value: u8,
}

impl Register {
    /// The byte that the register holds.
    pub open spec fn val(self) -> u8 {
        self.value
    }

    /// A register holding zero.
    pub fn new() -> (r: Self)
        ensures
            r.val() == 0,
    {
        Register { value: 0 }
    }

    /// Replaces the value.
    pub fn set(&mut self, val: u8)
        ensures
            final(self).val() == val,
    {
        self.value = val;
    }

    /// Adds `val`, wrapping modulo 256.
    pub fn add(&mut self, val: u8)
        ensures
            final(self).val() == (old(self).val() + val) % 256,
    {
        self.value = self.value.wrapping_add(val);
    }

    /// Subtracts `val`, wrapping modulo 256.
    pub fn subtract(&mut self, val: u8)
        ensures
            final(self).val() == (old(self).val() - val + 256) % 256,
    {
        self.value = self.value.wrapping_sub(val);
    }

    /// The value held.
    pub fn value(&self) -> (r: u8)
        ensures
            r == self.val(),
    {
        self.value
    }

    /// Sets the register to zero.
    pub fn reset(&mut self)
        ensures
            final(self).val() == 0,
    {
        self.value = 0;
    }
}

} // verus!
