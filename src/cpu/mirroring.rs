use vstd::prelude::*;

verus! {

/// How the four nametable slots map onto the two kilobytes of VRAM.
#[derive(Debug, Clone, Copy, PartialEq, Eq, Structural)]
pub enum Mirroring {
    Horizontal,
    Vertical,
    FourScreen,
}

} // verus!
