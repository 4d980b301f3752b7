use vstd::prelude::*;
use crate::byte_status::ByteStatus;
use crate::flags::Button;
use crate::render::input::button_status::ButtonStatus;

verus! {

/// The mathematical state of a joypad.
pub struct JoypadState {
    pub strobe: bool,
    pub index: u8,
    pub buttons: u8,
}

/// Bit `i` of `b`, as 0 or 1.
pub open spec fn bit_of(b: u8, i: u8) -> u8 {
    ((b >> i) & 1) as u8
}

impl JoypadState {
    /// While the strobe is high the index stays at 0; the index never passes 8.
    pub open spec fn wf(self) -> bool {
        &&& self.index <= 8
        &&& self.strobe ==> self.index == 0
    }

    /// A write of the strobe bit.
    pub open spec fn write(self, val: u8) -> JoypadState {
        let strobe = val & 1 == 1;
        JoypadState { strobe, index: if strobe { 0 } else { self.index }, ..self }
    }

    /// A read: the next button bit, or 1 once all eight were read.
    pub open spec fn read(self) -> (JoypadState, u8) {
        if self.index > 7 {
            (self, 1)
        } else {
            (
                JoypadState { index: if self.strobe { self.index } else { (self.index + 1) as u8 }, ..self },
                bit_of(self.buttons, self.index),
            )
        }
    }

    /// The bytes that `n` successive reads return.
    pub open spec fn reads(self, n: nat) -> Seq<u8>
        decreases n,
    {
        if n == 0 {
            Seq::empty()
        } else {
            let (next, r) = self.read();
            seq![r] + next.reads((n - 1) as nat)
        }
    }
}

/// While the strobe is high, every read returns button A and changes nothing.
pub proof fn lemma_strobe_reads_a(j: JoypadState)
    requires
        j.wf(),
        j.strobe,
    ensures
        j.read() == (j, bit_of(j.buttons, 0)),
{
}

/// Once all eight bits were read, every later read returns 1.
pub proof fn lemma_exhausted_reads_one(j: JoypadState, n: nat)
    requires
        j.index > 7,
    ensures
        j.reads(n) == Seq::new(n, |k: int| 1u8),
    decreases n,
{
    if n > 0 {
        lemma_exhausted_reads_one(j, (n - 1) as nat);
        assert(j.reads(n) =~= Seq::new(n, |k: int| 1u8));
    }
}

/// With the strobe low, reads walk the remaining button bits, then return 1.
pub proof fn lemma_walk(j: JoypadState, extra: nat)
    requires
        !j.strobe,
        j.index <= 8,
    ensures
        j.reads(((8 - j.index) + extra) as nat) == Seq::new((8 - j.index) as nat, |k: int| bit_of(j.buttons, (j.index + k) as u8))
            + Seq::new(extra, |k: int| 1u8),
    decreases 8 - j.index,
{
    if j.index == 8 {
        lemma_exhausted_reads_one(j, extra);
        assert(Seq::new(0, |k: int| bit_of(j.buttons, (j.index + k) as u8)) + Seq::new(extra, |k: int| 1u8)
            =~= Seq::new(extra, |k: int| 1u8));
    } else {
        let next = JoypadState { index: (j.index + 1) as u8, ..j };
        lemma_walk(next, extra);
        assert(j.reads(((8 - j.index) + extra) as nat) =~= Seq::new((8 - j.index) as nat, |k: int| bit_of(j.buttons, (j.index + k) as u8))
            + Seq::new(extra, |k: int| 1u8));
    }
}

/// After the strobe goes high then low, reads return A, B, SELECT, START, UP, DOWN, LEFT
/// and RIGHT, then 1 from the ninth read on.
pub proof fn lemma_strobe_fall_sequence(j: JoypadState, extra: nat)
    requires
        j.wf(),
    ensures
        ({
            let b = j.buttons;
            let s = j.write(1).write(0);
            s.reads(8 + extra) == seq![
                bit_of(b, 0),
                bit_of(b, 1),
                bit_of(b, 2),
                bit_of(b, 3),
                bit_of(b, 4),
                bit_of(b, 5),
                bit_of(b, 6),
                bit_of(b, 7),
            ] + Seq::new(extra, |k: int| 1u8)
        }),
{
    assert(1u8 & 1u8 == 1 && 0u8 & 1u8 == 0) by (bit_vector);
    let s = j.write(1).write(0);
    assert(!s.strobe && s.index == 0);
    lemma_walk(s, extra);
    assert(Seq::new(8, |k: int| bit_of(j.buttons, (0 + k) as u8)) =~= seq![
        bit_of(j.buttons, 0),
        bit_of(j.buttons, 1),
        bit_of(j.buttons, 2),
        bit_of(j.buttons, 3),
        bit_of(j.buttons, 4),
        bit_of(j.buttons, 5),
        bit_of(j.buttons, 6),
        bit_of(j.buttons, 7),
    ]);
}

/// A standard joypad: a shift register over the eight button bits.
#[derive(Debug)]
pub struct Joypad {
    pub strobe: bool,
    pub index: u8,
    pub status: ButtonStatus,
}

impl View for Joypad {
    type V = JoypadState;

    open spec fn view(&self) -> JoypadState {
        JoypadState { strobe: self.strobe, index: self.index, buttons: self.status.value }
    }
}

impl Default for Joypad {
    fn default() -> (r: Self)
        ensures
            r@ == (JoypadState { strobe: false, index: 0, buttons: 0 }),
    {
        Self::new()
    }
}

impl Joypad {
    /// A joypad with no button pressed and the strobe low.
    pub fn new() -> (r: Self)
        ensures
            r@ == (JoypadState { strobe: false, index: 0, buttons: 0 }),
    {
        Joypad { strobe: false, index: 0, status: ButtonStatus::new() }
    }

    /// Writes the strobe bit (bit 0 of `val`); a high strobe rewinds to button A.
    pub fn write(&mut self, val: u8)
        requires
            old(self)@.wf(),
        ensures
            final(self)@.wf(),
            final(self)@ == old(self)@.write(val),
    {
        self.strobe = val & 1 == 1;
        if self.strobe {
            self.index = 0;
        }
    }

    /// Reads one button bit: A, B, SELECT, START, UP, DOWN, LEFT, RIGHT in turn while the
    /// strobe is low (always A while it is high), then 1.
    pub fn read(&mut self) -> (r: u8)
        requires
            old(self)@.wf(),
        ensures
            final(self)@.wf(),
            (final(self)@, r) == old(self)@.read(),
    {
        if self.index > 7 {
            return 1;
        }
        let res = (self.status.value >> self.index) & 1;
        if !self.strobe {
            self.index = self.index + 1;
        }
        res
    }

    /// Presses a button.
    pub fn add(&mut self, button: Button)
        ensures
            final(self)@ == (JoypadState { buttons: old(self)@.buttons | button.bit(), ..old(self)@ }),
    {
        self.status.add(button.as_u8());
    }

    /// Releases a button.
    pub fn remove(&mut self, button: Button)
        ensures
            final(self)@ == (JoypadState { buttons: old(self)@.buttons & !button.bit(), ..old(self)@ }),
    {
        self.status.remove(button.as_u8());
    }
}

} // verus!
