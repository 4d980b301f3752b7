use vstd::prelude::*;

verus! {

/// The pointer value after reset.
pub const POINTER_RESET: u8 = 0xFD;

/// A standalone 256-byte stack page with its pointer.
pub struct CPUStack {
    pub stack: Vec<u8>,
    pub pointer: u8,
}

impl CPUStack {
    pub open spec fn wf(&self) -> bool {
        self.stack@.len() == 256
    }

    /// A zeroed stack with the pointer at $FD.
    pub fn new() -> (r: Self)
        ensures
            r.wf(),
            r.stack@ == Seq::new(256, |i: int| 0u8),
            r.pointer == POINTER_RESET,
    {
        let stack = vec![0u8; 256];
        assert(stack@ =~= Seq::new(256, |i: int| 0u8));
        CPUStack { stack, pointer: POINTER_RESET }
    }

    /// Stores at the pointer, then the pointer decreases (wrapping).
    pub fn push(&mut self, value: u8)
        requires
            old(self).wf(),
        ensures
            final(self).wf(),
            final(self).stack@ == old(self).stack@.update(old(self).pointer as int, value),
            final(self).pointer == (old(self).pointer + 255) % 256,
    {
        let p = self.pointer;
        self.stack.set(p as usize, value);
        self.pointer = self.pointer.wrapping_sub(1);
    }

    /// The pointer increases (wrapping), then the byte there is returned.
    pub fn pop(&mut self) -> (r: u8)
        requires
            old(self).wf(),
        ensures
            final(self).wf(),
            final(self).stack@ == old(self).stack@,
            final(self).pointer == (old(self).pointer + 1) % 256,
            r == old(self).stack@[(old(self).pointer + 1) % 256],
    {
        self.pointer = self.pointer.wrapping_add(1);
        self.stack[self.pointer as usize]
    }

    /// Pops the low byte, then the high byte.
    pub fn pop_u16(&mut self) -> (r: u16)
        requires
            old(self).wf(),
        ensures
            final(self).wf(),
            final(self).stack@ == old(self).stack@,
            final(self).pointer == (old(self).pointer + 2) % 256,
            r == old(self).stack@[(old(self).pointer + 2) % 256] as int * 256 + old(
                self,
            ).stack@[(old(self).pointer + 1) % 256] as int,
    {
        let low = self.pop();
        let high = self.pop();
        high as u16 * 256 + low as u16
    }

    /// Pushes the high byte, then the low byte.
    pub fn push_u16(&mut self, value: u16)
        requires
            old(self).wf(),
        ensures
            final(self).wf(),
            final(self).stack@ == old(self).stack@.update(old(self).pointer as int, (value / 256) as u8).update(
                (old(self).pointer + 255) % 256,
                (value % 256) as u8,
            ),
            final(self).pointer == (old(self).pointer + 254) % 256,
    {
        self.push((value / 256) as u8);
        self.push((value % 256) as u8);
    }

    /// The byte at the pointer.
    pub fn peek(&self) -> (r: u8)
        requires
            self.wf(),
        ensures
            r == self.stack@[self.pointer as int],
    {
        self.stack[self.pointer as usize]
    }

    /// Puts the pointer back at $FD.
    pub fn reset(&mut self)
        ensures
            final(self).stack@ == old(self).stack@,
            final(self).pointer == POINTER_RESET,
    {
        self.pointer = POINTER_RESET;
    }
}

} // verus!
