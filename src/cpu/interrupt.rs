use vstd::prelude::*;

verus! {

/// The kinds of interrupt that this machine raises.
#[derive(Debug, Clone, Copy, PartialEq, Eq, Structural)]
pub enum InterruptType {
    NMI,
}

/// How an interrupt is serviced.
#[derive(Debug, Clone, Copy, PartialEq, Eq, Structural)]
pub struct Interrupt {
    pub interrupt_type: InterruptType,
    /// Cycles that servicing takes.
    pub cycles: u8,
    /// The vector that holds the handler's address.
    pub address: u16,
    /// Which of Break (bit 4) and Break2 (bit 5) the pushed status carries.
    pub flag_mask: u8,
}

impl Interrupt {
    /// The non-maskable interrupt: vector $FFFA, two cycles, pushed with Break2 only.
    pub open spec fn nmi_spec() -> Interrupt {
        Interrupt { interrupt_type: InterruptType::NMI, cycles: 2, address: 0xFFFA, flag_mask: 0x20 }
    }

    /// The non-maskable interrupt.
    pub fn nmi() -> (r: Interrupt)
        ensures
            r == Self::nmi_spec(),
    {
        Interrupt { interrupt_type: InterruptType::NMI, cycles: 2, address: 0xFFFA, flag_mask: 0x20 }
    }
}

} // verus!
