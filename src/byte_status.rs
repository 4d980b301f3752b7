use vstd::prelude::*;

verus! {

/// A register held as one byte of independent flag bits.
pub trait ByteStatus {
    /// The byte that the register holds.
    spec fn bits(&self) -> u8;

    /// The byte that `reset` restores.
    spec fn reset_bits() -> u8;

    /// Sets the bits of `bit`.
    fn add(&mut self, bit: u8)
        ensures
            final(self).bits() == old(self).bits() | bit,
    ;

    /// Clears the bits of `bit`.
    fn remove(&mut self, bit: u8)
        ensures
            final(self).bits() == old(self).bits() & !bit,
    ;

    /// Whether any bit of `bit` is set.
    fn is_set(&self, bit: u8) -> (r: bool)
        ensures
            r == (self.bits() & bit != 0),
    ;

    /// Restores the register's initial byte.
    fn reset(&mut self)
        ensures
            final(self).bits() == Self::reset_bits(),
    ;

    /// Replaces the whole byte.
    fn set_bits(&mut self, bits: u8)
        ensures
            final(self).bits() == bits,
    ;
}

} // verus!
