use vstd::prelude::*;

verus! {

/// Addressing modes of the 6502. `Implied` covers implied, accumulator and the modes that the
/// jump and branch operations decode themselves.
#[derive(Debug, Clone, Copy, PartialEq, Eq, Structural)]
pub enum Addressing {
    Implied,
    Immediate,
    ZeroPage,
    ZeroPageX,
    ZeroPageY,
    Absolute,
    AbsoluteX,
    AbsoluteY,
    IndirectX,
    IndirectY,
}

} // verus!
