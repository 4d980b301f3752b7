use vstd::prelude::*;
use crate::cpu::bus::{lemma_read_ram, lemma_write_ram};
use crate::cpu::cpu::{CpuState, STACK_BASE};

verus! {

/// Reset leaves bit 5 of P (Break2) set.
pub proof fn lemma_reset_sets_break2(s: CpuState)
    ensures
        s.reset().p & 0x20 != 0,
{
    assert(0b0010_0100u8 & 0x20u8 != 0) by (bit_vector);
}

/// A status byte pulled from the stack always has bit 5 set and bit 4 clear.
pub proof fn lemma_pulled_status_bits(v: u8)
    ensures
        CpuState::pulled_status(v) & 0x20 != 0,
        CpuState::pulled_status(v) & 0x10 == 0,
{
    assert(((v & !0x10u8) | 0x20u8) & 0x20u8 != 0 && ((v & !0x10u8) | 0x20u8) & 0x10u8 == 0)
        by (bit_vector);
}

/// Popping leaves P as it was.
pub proof fn lemma_pop_keeps_status(s: CpuState)
    ensures
        s.pop().0.p == s.p,
        s.pop_u16().0.p == s.p,
{
}

/// PLP and RTI leave bit 5 of P (Break2) set, whatever byte the stack held.
pub proof fn lemma_pull_sets_break2(s: CpuState)
    ensures
        s.plp().p & 0x20 != 0,
        s.rti().p & 0x20 != 0,
{
    reveal(CpuState::rti);
    let (s1, v) = s.pop();
    lemma_pulled_status_bits(v);
    lemma_pop_keeps_status(CpuState { p: CpuState::pulled_status(v), ..s1 });
}

/// Every push moves SP down by one modulo 256: a push at SP = 0 leaves SP = $FF.
/// Every pop moves it up by one modulo 256: a pop at SP = $FF leaves SP = 0.
pub proof fn lemma_stack_pointer_wraps(s: CpuState, v: u8)
    ensures
        s.push(v).sp == (s.sp + 255) % 256,
        s.pop().0.sp == (s.sp + 1) % 256,
        s.sp == 0 ==> s.push(v).sp == 0xFF,
        s.sp == 0xFF ==> s.pop().0.sp == 0,
{
}

/// JMP indirect through a pointer whose low byte is $FF takes the target's high byte from
/// the $00 byte of the same page, not from the next page.
pub proof fn lemma_jmp_indirect_page_bug(s: CpuState)
    ensures
        ({
            let (s1, ptr) = s.read_u16(s.pc);
            ptr & 0xFF == 0xFF ==> {
                let (s2, lo) = s1.read(ptr);
                let (s3, hi) = s2.read(ptr & 0xFF00);
                s.jmp_ind().pc == hi as int * 256 + lo as int
            }
        }),
{
    reveal(CpuState::jmp_ind);
    let (s1, ptr) = s.read_u16(s.pc);
    if ptr & 0xFF == 0xFF {
        assert(ptr % 256 == 255 && ptr & 0xFF00 == ptr - 255) by (bit_vector)
            requires
                ptr & 0xFFu16 == 0xFFu16,
        ;
    }
}

/// PHP then PLP restores P, with Break cleared and Break2 set.
pub proof fn lemma_php_plp_round_trip(s: CpuState)
    requires
        s.wf(),
    ensures
        s.php().plp().p == CpuState::pulled_status(s.p),
        s.php().plp().sp == s.sp,
{
    let pushed = (s.p | 0x10u8) | 0x20u8;
    let t = s.php();
    let addr = (STACK_BASE + s.sp) as u16;
    assert(addr < 0x2000);
    lemma_write_ram(s.bus, addr, pushed);
    assert(t.bus.ram == s.bus.ram.update(addr as int % 0x800, pushed));
    assert(t.sp == (s.sp + 255) % 256);
    assert(((t.sp + 1) % 256) == s.sp);
    lemma_read_ram(t.bus, addr);
    let (u, v) = t.pop();
    assert(v == pushed);
    let p = s.p;
    assert(((pushed & !0x10u8) | 0x20u8) == ((p & !0x10u8) | 0x20u8)) by (bit_vector)
        requires
            pushed == (p | 0x10u8) | 0x20u8,
    ;
}

} // verus!
