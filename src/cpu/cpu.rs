use vstd::prelude::*;
use crate::byte_status::ByteStatus;
use crate::cpu::addressing::Addressing;
use crate::cpu::bus::{Bus, BusState, WriteError};
use crate::cpu::cpu_status::CPUStatus;
use crate::cpu::instructions::{decode, instruction_of, Instruction, OpName};
use crate::cpu::interrupt::Interrupt;
use crate::ppu::ppu::PpuState;
use crate::cpu::register::Register;
use crate::flags::Status;

verus! {

/// Where the stack page starts.
pub const STACK_BASE: u16 = 0x0100;
/// The stack pointer after reset.
pub const STACK_RESET: u8 = 0xFD;
/// The status byte after reset: interrupts disabled and the always-set bit on.
pub const STATUS_RESET: u8 = 0b0010_0100;
/// The reset vector.
pub const RESET_VECTOR: u16 = 0xFFFC;

/// `p` with the bits of `flag` set when `cond` holds and cleared otherwise.
pub open spec fn set_flag(p: u8, flag: u8, cond: bool) -> u8 {
    if cond { p | flag } else { p & !flag }
}

/// `p` with Zero and Negative set from a result byte.
pub open spec fn zn(p: u8, r: u8) -> u8 {
    set_flag(set_flag(p, Status::Zero.bit(), r == 0), Status::Negative.bit(), r & 0x80 != 0)
}

/// Whether two addresses lie on different pages.
pub open spec fn page_differs(a: u16, b: u16) -> bool {
    a / 256 != b / 256
}

/// `a + b` modulo 2^16.
pub open spec fn add16(a: int, b: int) -> u16 {
    ((a + b) % 0x10000) as u16
}

/// The mathematical state of the CPU: its registers and the bus.
pub struct CpuState {
    pub a: u8,
    pub x: u8,
    pub y: u8,
    pub p: u8,
    pub pc: u16,
    pub sp: u8,
    pub bus: BusState,
}

impl CpuState {
    pub open spec fn wf(self) -> bool {
        self.bus.wf()
    }

    pub open spec fn read(self, addr: u16) -> (CpuState, u8) {
        let (b, v) = self.bus.read(addr);
        (CpuState { bus: b, ..self }, v)
    }

    pub open spec fn read_u16(self, addr: u16) -> (CpuState, u16) {
        let (b, v) = self.bus.read_u16(addr);
        (CpuState { bus: b, ..self }, v)
    }

    /// A write through the bus; a refused write leaves the state as it was.
    pub open spec fn write(self, addr: u16, val: u8) -> CpuState {
        CpuState { bus: self.bus.write(addr, val).0, ..self }
    }

    pub open spec fn tick(self, cycles: u8) -> CpuState {
        CpuState { bus: self.bus.tick(cycles), ..self }
    }

    pub open spec fn tick_if(self, cond: bool) -> CpuState {
        if cond { self.tick(1) } else { self }
    }

    /// Pushes a byte at $0100 + SP, then SP decreases (wrapping).
    pub open spec fn push(self, val: u8) -> CpuState {
        let s = self.write((STACK_BASE + self.sp) as u16, val);
        CpuState { sp: ((self.sp + 255) % 256) as u8, ..s }
    }

    /// SP increases (wrapping), then the byte at $0100 + SP is read.
    pub open spec fn pop(self) -> (CpuState, u8) {
        let sp = ((self.sp + 1) % 256) as u8;
        CpuState { sp, ..self }.read((STACK_BASE + sp) as u16)
    }

    /// Pushes the high byte, then the low byte.
    pub open spec fn push_u16(self, val: u16) -> CpuState {
        self.push((val / 256) as u8).push((val % 256) as u8)
    }

    /// Pops the low byte, then the high byte.
    pub open spec fn pop_u16(self) -> (CpuState, u16) {
        let (s1, lo) = self.pop();
        let (s2, hi) = s1.pop();
        (s2, (hi as int * 256 + lo as int) as u16)
    }

    /// The state after reset.
    pub open spec fn reset(self) -> CpuState {
        let s = CpuState { a: 0, x: 0, y: 0, p: STATUS_RESET, sp: STACK_RESET, ..self };
        let (s1, pc) = s.read_u16(RESET_VECTOR);
        CpuState { pc, ..s1 }
    }

    /// Zero-page indexed: the byte at `addr` plus `index`, wrapping within page zero.
    pub open spec fn zero_page_indexed(self, addr: u16, index: u8) -> (CpuState, u16, bool) {
        let (s, v) = self.read(addr);
        (s, ((v + index) % 256) as u16, false)
    }

    /// Absolute indexed: the word at `addr` plus `index`, wrapping; crossing a page is noted.
    pub open spec fn absolute_indexed(self, addr: u16, index: u8) -> (CpuState, u16, bool) {
        let (s, base) = self.read_u16(addr);
        let ea = add16(base as int, index as int);
        (s, ea, page_differs(base, ea))
    }

    /// The little-endian word at zero-page `z`, the high byte wrapping within page zero.
    pub open spec fn zero_page_word(self, z: u8) -> (CpuState, u16) {
        let (s1, lo) = self.read(z as u16);
        let (s2, hi) = s1.read(((z + 1) % 256) as u16);
        (s2, (hi as int * 256 + lo as int) as u16)
    }

    /// Indexed indirect, (zp,X): the word at zero-page (byte at `addr` + X).
    pub open spec fn indexed_indirect(self, addr: u16) -> (CpuState, u16, bool) {
        let (s1, v) = self.read(addr);
        let (s2, ea) = s1.zero_page_word(((v + self.x) % 256) as u8);
        (s2, ea, false)
    }

    /// Indirect indexed, (zp),Y: the word at zero-page (byte at `addr`), plus Y.
    pub open spec fn indirect_indexed(self, addr: u16) -> (CpuState, u16, bool) {
        let (s1, v) = self.read(addr);
        let (s2, base) = s1.zero_page_word(v);
        let ea = add16(base as int, self.y as int);
        (s2, ea, page_differs(base, ea))
    }

    /// The effective address of an operand at `addr` under `mode`, with whether an indexed
    /// access crossed a page; `Immediate` and `Implied` give `addr` itself.
    #[verifier::opaque]
    pub open spec fn param_address(self, mode: Addressing, addr: u16) -> (CpuState, u16, bool) {
        match mode {
            Addressing::ZeroPage => self.zero_page_indexed(addr, 0),
            Addressing::ZeroPageX => self.zero_page_indexed(addr, self.x),
            Addressing::ZeroPageY => self.zero_page_indexed(addr, self.y),
            Addressing::Absolute => {
                let (s, v) = self.read_u16(addr);
                (s, v, false)
            },
            Addressing::AbsoluteX => self.absolute_indexed(addr, self.x),
            Addressing::AbsoluteY => self.absolute_indexed(addr, self.y),
            Addressing::IndirectX => self.indexed_indirect(addr),
            Addressing::IndirectY => self.indirect_indexed(addr),
            _ => (self, addr, false),
        }
    }

    /// The operand address of the instruction at PC: PC itself for `Immediate` (and `Implied`).
    #[verifier::opaque]
    pub open spec fn operand_address(self, mode: Addressing) -> (CpuState, u16, bool) {
        if mode == Addressing::Immediate || mode == Addressing::Implied {
            (self, self.pc, false)
        } else {
            self.param_address(mode, self.pc)
        }
    }

    /// The operand byte, read at the operand address.
    #[verifier::opaque]
    pub open spec fn operand(self, mode: Addressing) -> (CpuState, u8, bool) {
        let (s1, addr, cross) = self.operand_address(mode);
        let (s2, v) = s1.read(addr);
        (s2, v, cross)
    }
}

/// The four shifts and rotates.
#[derive(Debug, Clone, Copy, PartialEq, Eq, Structural)]
pub enum Shift {
    Asl,
    Lsr,
    Rol,
    Ror,
}

/// A shift of `v` with carry-in `c`: the result and the bit shifted out.
pub open spec fn shift_value(op: Shift, v: u8, c: bool) -> (u8, bool) {
    match op {
        Shift::Asl => (v << 1u8, v >> 7u8 == 1),
        Shift::Lsr => (v >> 1u8, v & 1 == 1),
        Shift::Rol => (if c { (v << 1u8) | 1 } else { v << 1u8 }, v >> 7u8 == 1),
        Shift::Ror => (if c { (v >> 1u8) | 0x80 } else { v >> 1u8 }, v & 1 == 1),
    }
}

/// A branch offset byte as a 16-bit two's-complement addend.
pub open spec fn offset16(off: u8) -> int {
    if off >= 128 { off + 0xFF00 } else { off as int }
}

impl CpuState {
    pub open spec fn carry(self) -> bool {
        self.p & Status::Carry.bit() != 0
    }

    pub open spec fn set_a(self, v: u8) -> CpuState {
        CpuState { a: v, p: zn(self.p, v), ..self }
    }

    pub open spec fn set_x(self, v: u8) -> CpuState {
        CpuState { x: v, p: zn(self.p, v), ..self }
    }

    pub open spec fn set_y(self, v: u8) -> CpuState {
        CpuState { y: v, p: zn(self.p, v), ..self }
    }

    /// A + v + C into A, with Carry, Overflow, Zero and Negative.
    #[verifier::opaque]
    pub open spec fn add_to_a(self, v: u8) -> CpuState {
        let sum = self.a + v + if self.carry() { 1int } else { 0int };
        let r = (sum % 256) as u8;
        let p1 = set_flag(self.p, Status::Carry.bit(), sum > 0xFF);
        let p2 = set_flag(p1, Status::Overflow.bit(), (v ^ r) & (r ^ self.a) & 0x80 != 0);
        CpuState { a: r, p: zn(p2, r), ..self }
    }

    pub open spec fn adc(self, mode: Addressing) -> CpuState {
        let (s, v, c) = self.operand(mode);
        s.add_to_a(v).tick_if(c)
    }

    /// SBC is ADC of the operand's complement.
    pub open spec fn sbc(self, mode: Addressing) -> CpuState {
        let (s, v, c) = self.operand(mode);
        s.add_to_a(!v).tick_if(c)
    }

    pub open spec fn and(self, mode: Addressing) -> CpuState {
        let (s, v, c) = self.operand(mode);
        s.set_a(s.a & v).tick_if(c)
    }

    pub open spec fn eor(self, mode: Addressing) -> CpuState {
        let (s, v, c) = self.operand(mode);
        s.set_a(s.a ^ v).tick_if(c)
    }

    pub open spec fn ora(self, mode: Addressing) -> CpuState {
        let (s, v, c) = self.operand(mode);
        s.set_a(s.a | v).tick_if(c)
    }

    pub open spec fn lda(self, mode: Addressing) -> CpuState {
        let (s, v, c) = self.operand(mode);
        s.set_a(v).tick_if(c)
    }

    pub open spec fn ldx(self, mode: Addressing) -> CpuState {
        let (s, v, c) = self.operand(mode);
        s.set_x(v).tick_if(c)
    }

    pub open spec fn ldy(self, mode: Addressing) -> CpuState {
        let (s, v, c) = self.operand(mode);
        s.set_y(v).tick_if(c)
    }

    /// A shift of the accumulator.
    pub open spec fn shift_a(self, op: Shift) -> CpuState {
        let (r, out) = shift_value(op, self.a, self.carry());
        CpuState { a: r, p: zn(set_flag(self.p, Status::Carry.bit(), out), r), ..self }
    }

    /// A shift of a memory operand, written back; the result byte too.
    #[verifier::opaque]
    pub open spec fn shift_mem(self, op: Shift, mode: Addressing) -> (CpuState, u8) {
        let (s1, addr, _) = self.operand_address(mode);
        let (s2, v) = s1.read(addr);
        let (r, out) = shift_value(op, v, self.carry());
        let s3 = s2.write(addr, r);
        (CpuState { p: zn(set_flag(s3.p, Status::Carry.bit(), out), r), ..s3 }, r)
    }

    /// A memory operand plus `delta` (wrapping), written back; the result byte too.
    #[verifier::opaque]
    pub open spec fn step_mem(self, mode: Addressing, delta: u8) -> (CpuState, u8) {
        let (s1, addr, _) = self.operand_address(mode);
        let (s2, v) = s1.read(addr);
        let r = ((v + delta) % 256) as u8;
        let s3 = s2.write(addr, r);
        (CpuState { p: zn(s3.p, r), ..s3 }, r)
    }

    #[verifier::opaque]
    pub open spec fn bit(self, mode: Addressing) -> CpuState {
        let (s, v, _) = self.operand(mode);
        let p1 = set_flag(s.p, Status::Zero.bit(), s.a & v == 0);
        let p2 = set_flag(p1, Status::Negative.bit(), v & 0x80 > 0);
        CpuState { p: set_flag(p2, Status::Overflow.bit(), v & 0x40 > 0), ..s }
    }

    /// CMP, CPX, CPY: Carry when `reg` >= operand; Zero and Negative from the difference.
    #[verifier::opaque]
    pub open spec fn compare(self, reg: u8, mode: Addressing) -> CpuState {
        let (s, v, c) = self.operand(mode);
        let p1 = set_flag(s.p, Status::Carry.bit(), v <= reg);
        CpuState { p: zn(p1, ((reg - v + 256) % 256) as u8), ..s }.tick_if(c)
    }

    /// A conditional branch: when taken, one extra cycle, another on a page change, and
    /// PC moves by the signed offset from the address after the instruction.
    #[verifier::opaque]
    pub open spec fn branch(self, cond: bool) -> CpuState {
        if cond {
            let s1 = self.tick(1);
            let (s2, off) = s1.read(s1.pc);
            let next = add16(self.pc as int, 1);
            let target = add16(next as int, offset16(off));
            CpuState { pc: target, ..s2.tick_if(page_differs(next, target)) }
        } else {
            self
        }
    }

    pub open spec fn store(self, mode: Addressing, val: u8) -> CpuState {
        let (s1, addr, _) = self.operand_address(mode);
        s1.write(addr, val)
    }

    pub open spec fn jmp_abs(self) -> CpuState {
        let (s, target) = self.read_u16(self.pc);
        CpuState { pc: target, ..s }
    }

    /// JMP ($xxyy) with the 6502's page bug: a pointer at $xxFF takes its high byte from $xx00.
    #[verifier::opaque]
    pub open spec fn jmp_ind(self) -> CpuState {
        let (s1, ptr) = self.read_u16(self.pc);
        if ptr % 256 == 255 {
            let (s2, lo) = s1.read(ptr);
            let (s3, hi) = s2.read((ptr - 255) as u16);
            CpuState { pc: (hi as int * 256 + lo as int) as u16, ..s3 }
        } else {
            let (s2, target) = s1.read_u16(ptr);
            CpuState { pc: target, ..s2 }
        }
    }

    /// JSR: pushes the address of the JSR's last byte, then jumps.
    #[verifier::opaque]
    pub open spec fn jsr(self) -> CpuState {
        let s1 = self.push_u16(add16(self.pc as int, 1));
        let (s2, target) = s1.read_u16(s1.pc);
        CpuState { pc: target, ..s2 }
    }

    pub open spec fn rts(self) -> CpuState {
        let (s, ret) = self.pop_u16();
        CpuState { pc: add16(ret as int, 1), ..s }
    }

    /// A status byte as pulled from the stack: Break cleared, Break2 set.
    pub open spec fn pulled_status(v: u8) -> u8 {
        (v & !Status::Break.bit()) | Status::Break2.bit()
    }

    #[verifier::opaque]
    pub open spec fn rti(self) -> CpuState {
        let (s1, v) = self.pop();
        let (s2, ret) = CpuState { p: Self::pulled_status(v), ..s1 }.pop_u16();
        CpuState { pc: ret, ..s2 }
    }

    pub open spec fn php(self) -> CpuState {
        self.push((self.p | Status::Break.bit()) | Status::Break2.bit())
    }

    pub open spec fn plp(self) -> CpuState {
        let (s, v) = self.pop();
        CpuState { p: Self::pulled_status(v), ..s }
    }

    pub open spec fn pla(self) -> CpuState {
        let (s, v) = self.pop();
        s.set_a(v)
    }
}

/// How one step of the interpreter ended.
#[derive(Debug, Clone, Copy, PartialEq, Eq, Structural)]
pub enum StepOutcome {
    /// An instruction ran; the interpreter goes on.
    Continue,
    /// BRK was fetched: the program is over.
    Break,
    /// The byte at PC is no opcode of the table.
    UnrecognizedOpcode(u8),
}

/// Why a program could not be loaded.
#[derive(Debug, Clone, Copy, PartialEq, Eq, Structural)]
pub enum LoadError {
    /// The program does not fit below the interrupt vectors.
    ProgramTooLarge,
}

/// Largest program that `load_program` takes: it must end before the vectors at $FFFA.
pub const MAX_PROGRAM: usize = 0x7FFA;

/// The 32 KiB PRG image of a program: the program at $8000, zeros after it, and the reset
/// vector pointing at $8000.
pub open spec fn program_image(program: Seq<u8>) -> Seq<u8> {
    Seq::new(
        0x8000,
        |i: int|
            if i < program.len() {
                program[i]
            } else if i == 0x7FFD {
                0x80u8
            } else {
                0u8
            },
    )
}

impl CpuState {
    /// Interrupt servicing: push PC and the status (Break bits from the mask), disable
    /// interrupts, let the cycles pass and jump through the vector.
    #[verifier::opaque]
    pub open spec fn interrupt(self, irq: Interrupt) -> CpuState {
        let s1 = self.push_u16(self.pc);
        let flags = set_flag(
            set_flag(self.p, Status::Break.bit(), irq.flag_mask & 0x10 != 0),
            Status::Break2.bit(),
            irq.flag_mask & 0x20 != 0,
        );
        let s2 = s1.push(flags);
        let s3 = CpuState { p: s2.p | Status::InterruptDisable.bit(), ..s2 }.tick(irq.cycles);
        let (s4, pc) = s3.read_u16(irq.address);
        CpuState { pc, ..s4 }
    }

    /// Takes a pending NMI and services it.
    pub open spec fn service_nmi(self) -> CpuState {
        if self.bus.ppu.nmi {
            let s = CpuState {
                bus: BusState { ppu: PpuState { nmi: false, ..self.bus.ppu }, ..self.bus },
                ..self
            };
            s.interrupt(Interrupt::nmi_spec())
        } else {
            self
        }
    }

    /// What an instruction's handler does (PC at its first operand byte).
    #[verifier::opaque]
    pub open spec fn execute(self, ins: Instruction) -> CpuState {
        let m = ins.mode;
        match ins.name {
            OpName::ADC => self.adc(m),
            OpName::AND => self.and(m),
            OpName::ASL_A => self.shift_a(Shift::Asl),
            OpName::ASL => self.shift_mem(Shift::Asl, m).0,
            OpName::BIT => self.bit(m),
            OpName::BCS => self.branch(self.carry()),
            OpName::BCC => self.branch(!self.carry()),
            OpName::BEQ => self.branch(self.p & Status::Zero.bit() != 0),
            OpName::BNE => self.branch(self.p & Status::Zero.bit() == 0),
            OpName::BMI => self.branch(self.p & Status::Negative.bit() != 0),
            OpName::BPL => self.branch(self.p & Status::Negative.bit() == 0),
            OpName::BVS => self.branch(self.p & Status::Overflow.bit() != 0),
            OpName::BVC => self.branch(self.p & Status::Overflow.bit() == 0),
            OpName::BRK => self,
            OpName::CLC => CpuState { p: self.p & !Status::Carry.bit(), ..self },
            OpName::CLD => CpuState { p: self.p & !Status::Decimal.bit(), ..self },
            OpName::CLI => CpuState { p: self.p & !Status::InterruptDisable.bit(), ..self },
            OpName::CLV => CpuState { p: self.p & !Status::Overflow.bit(), ..self },
            OpName::CMP => self.compare(self.a, m),
            OpName::CPX => self.compare(self.x, m),
            OpName::CPY => self.compare(self.y, m),
            OpName::DEC => self.step_mem(m, 255).0,
            OpName::DEX => self.set_x(((self.x + 255) % 256) as u8),
            OpName::DEY => self.set_y(((self.y + 255) % 256) as u8),
            OpName::EOR => self.eor(m),
            OpName::INC => self.step_mem(m, 1).0,
            OpName::INX => self.set_x(((self.x + 1) % 256) as u8),
            OpName::INY => self.set_y(((self.y + 1) % 256) as u8),
            OpName::JMP_ABS => self.jmp_abs(),
            OpName::JMP_IND => self.jmp_ind(),
            OpName::JSR => self.jsr(),
            OpName::LDA => self.lda(m),
            OpName::LDX => self.ldx(m),
            OpName::LDY => self.ldy(m),
            OpName::LSR_A => self.shift_a(Shift::Lsr),
            OpName::LSR => self.shift_mem(Shift::Lsr, m).0,
            OpName::NOP => self,
            OpName::ORA => self.ora(m),
            OpName::PHA => self.push(self.a),
            OpName::PHP => self.php(),
            OpName::PLA => self.pla(),
            OpName::PLP => self.plp(),
            OpName::ROL_A => self.shift_a(Shift::Rol),
            OpName::ROL => self.shift_mem(Shift::Rol, m).0,
            OpName::ROR_A => self.shift_a(Shift::Ror),
            OpName::ROR => self.shift_mem(Shift::Ror, m).0,
            OpName::RTI => self.rti(),
            OpName::RTS => self.rts(),
            OpName::SBC => self.sbc(m),
            OpName::SEC => CpuState { p: self.p | Status::Carry.bit(), ..self },
            OpName::SED => CpuState { p: self.p | Status::Decimal.bit(), ..self },
            OpName::SEI => CpuState { p: self.p | Status::InterruptDisable.bit(), ..self },
            OpName::STA => self.store(m, self.a),
            OpName::STX => self.store(m, self.x),
            OpName::STY => self.store(m, self.y),
            OpName::TAX => self.set_x(self.a),
            OpName::TAY => self.set_y(self.a),
            OpName::TSX => self.set_x(self.sp),
            OpName::TXA => self.set_a(self.x),
            OpName::TXS => CpuState { sp: self.x, ..self },
            OpName::TYA => self.set_a(self.y),
        }
    }

    /// One interpreter step: service a pending NMI, fetch and decode the opcode at PC, run
    /// it, let its base cycles pass, and move PC past it unless the handler set PC.
    pub open spec fn step(self) -> (CpuState, StepOutcome) {
        let s0 = self.service_nmi();
        let (s1, code) = s0.read(s0.pc);
        let s2 = CpuState { pc: add16(s1.pc as int, 1), ..s1 };
        match instruction_of(code) {
            None => (s2, StepOutcome::UnrecognizedOpcode(code)),
            Some(ins) => if ins.name == OpName::BRK {
                (s2, StepOutcome::Break)
            } else {
                let s3 = s2.execute(ins).tick(ins.cycles);
                if s3.pc == s2.pc {
                    (CpuState { pc: add16(s3.pc as int, ins.bytes - 1), ..s3 }, StepOutcome::Continue)
                } else {
                    (s3, StepOutcome::Continue)
                }
            },
        }
    }

    /// At most `fuel` steps, stopping at the first that does not continue.
    pub open spec fn run(self, fuel: nat) -> (CpuState, StepOutcome)
        decreases fuel,
    {
        if fuel == 0 {
            (self, StepOutcome::Continue)
        } else {
            let (s1, o) = self.step();
            if o == StepOutcome::Continue {
                s1.run((fuel - 1) as nat)
            } else {
                (s1, o)
            }
        }
    }
}

/// The 6502 processor, owning the bus.
pub struct CPU {
    pub a: Register,
    pub x: Register,
    pub y: Register,
    pub status: CPUStatus,
    pub prog_counter: u16,
    pub stack_pointer: u8,
    pub bus: Bus,
}

impl View for CPU {
    type V = CpuState;

    open spec fn view(&self) -> CpuState {
        CpuState {
            a: self.a.value,
            x: self.x.value,
            y: self.y.value,
            p: self.status.value,
            pc: self.prog_counter,
            sp: self.stack_pointer,
            bus: self.bus@,
        }
    }
}

impl CPU {
    pub open spec fn wf(&self) -> bool {
        self@.wf()
    }

    /// A CPU over a bus, with zeroed registers, the reset status and stack pointer, and PC 0.
    pub fn new(bus: Bus) -> (r: CPU)
        requires
            bus.wf(),
        ensures
            r.wf(),
            r@ == (CpuState { a: 0, x: 0, y: 0, p: STATUS_RESET, pc: 0, sp: STACK_RESET, bus: bus@ }),
    {
        CPU {
            a: Register::new(),
            x: Register::new(),
            y: Register::new(),
            status: CPUStatus::new(),
            prog_counter: 0,
            bus,
            stack_pointer: STACK_RESET,
        }
    }

    /// Resets: zeroes A, X and Y, restores the status and stack pointer, and loads PC from
    /// the reset vector at $FFFC/$FFFD.
    pub fn reset(&mut self)
        requires
            old(self).wf(),
        ensures
            final(self).wf(),
            final(self)@ == old(self)@.reset(),
    {
        self.a.reset();
        self.x.reset();
        self.y.reset();
        self.status.reset();
        self.stack_pointer = STACK_RESET;
        self.prog_counter = self.read_u16(RESET_VECTOR);
    }

    /// Reads a byte through the bus.
    pub fn read(&mut self, address: u16) -> (r: u8)
        requires
            old(self).wf(),
        ensures
            final(self).wf(),
            (final(self)@, r) == old(self)@.read(address),
    {
        self.bus.read(address)
    }

    /// Reads a little-endian 16-bit value through the bus.
    pub fn read_u16(&mut self, address: u16) -> (r: u16)
        requires
            old(self).wf(),
        ensures
            final(self).wf(),
            (final(self)@, r) == old(self)@.read_u16(address),
    {
        self.bus.read_u16(address)
    }

    /// Writes a byte through the bus; the result says whether it was stored.
    pub fn write(&mut self, address: u16, val: u8) -> (r: Result<(), WriteError>)
        requires
            old(self).wf(),
        ensures
            final(self).wf(),
            final(self)@ == old(self)@.write(address, val),
            r == old(self)@.bus.write(address, val).1,
    {
        self.bus.write(address, val)
    }

    /// Writes a little-endian 16-bit value through the bus.
    pub fn write_u16(&mut self, address: u16, val: u16)
        requires
            old(self).wf(),
        ensures
            final(self).wf(),
            final(self)@ == (CpuState { bus: old(self)@.bus.write_u16(address, val), ..old(self)@ }),
    {
        self.bus.write_u16(address, val);
    }

    fn tick(&mut self, cycles: u8)
        requires
            old(self).wf(),
            cycles <= 85,
        ensures
            final(self).wf(),
            final(self)@ == old(self)@.tick(cycles),
    {
        self.bus.tick(cycles);
    }

    fn tick_if(&mut self, cond: bool)
        requires
            old(self).wf(),
        ensures
            final(self).wf(),
            final(self)@ == old(self)@.tick_if(cond),
    {
        if cond {
            self.bus.tick(1);
        }
    }

    /// Sets Zero and Negative from a result byte.
    fn zero_negative(&mut self, res: u8)
        ensures
            final(self)@ == (CpuState { p: zn(old(self)@.p, res), ..old(self)@ }),
    {
        self.status.set(Status::Zero.as_u8(), res == 0);
        self.status.set(Status::Negative.as_u8(), res & 0x80 != 0);
    }

    /// Whether two addresses lie on different pages.
    fn crossed_page(addr_1: u16, addr_2: u16) -> (r: bool)
        ensures
            r == page_differs(addr_1, addr_2),
    {
        addr_1 / 256 != addr_2 / 256
    }

    /// Pushes a byte on the stack at $0100 + SP; SP then decreases, wrapping.
    pub fn stack_push(&mut self, val: u8)
        requires
            old(self).wf(),
        ensures
            final(self).wf(),
            final(self)@ == old(self)@.push(val),
    {
        let _ = self.write(STACK_BASE + self.stack_pointer as u16, val);
        self.stack_pointer = self.stack_pointer.wrapping_sub(1);
    }

    /// Pops a byte: SP increases, wrapping, then the byte at $0100 + SP is read.
    pub fn stack_pop(&mut self) -> (r: u8)
        requires
            old(self).wf(),
        ensures
            final(self).wf(),
            (final(self)@, r) == old(self)@.pop(),
    {
        self.stack_pointer = self.stack_pointer.wrapping_add(1);
        self.read(STACK_BASE + self.stack_pointer as u16)
    }

    /// Pushes a 16-bit value, high byte first.
    pub fn stack_push_u16(&mut self, val: u16)
        requires
            old(self).wf(),
        ensures
            final(self).wf(),
            final(self)@ == old(self)@.push_u16(val),
    {
        self.stack_push((val / 256) as u8);
        self.stack_push((val % 256) as u8);
    }

    /// Pops a 16-bit value, low byte first.
    pub fn stack_pop_u16(&mut self) -> (r: u16)
        requires
            old(self).wf(),
        ensures
            final(self).wf(),
            (final(self)@, r) == old(self)@.pop_u16(),
    {
        let low = self.stack_pop() as u16;
        let high = self.stack_pop() as u16;
        high * 256 + low
    }

    fn zero_page_indexed(&mut self, addr: u16, index: u8) -> (r: (u16, bool))
        requires
            old(self).wf(),
        ensures
            final(self).wf(),
            (final(self)@, r.0, r.1) == old(self)@.zero_page_indexed(addr, index),
    {
        let val = self.read(addr);
        (val.wrapping_add(index) as u16, false)
    }

    fn absolute_indexed(&mut self, addr: u16, index: u8) -> (r: (u16, bool))
        requires
            old(self).wf(),
        ensures
            final(self).wf(),
            (final(self)@, r.0, r.1) == old(self)@.absolute_indexed(addr, index),
    {
        let val = self.read_u16(addr);
        let ea = val.wrapping_add(index as u16);
        (ea, CPU::crossed_page(val, ea))
    }

    fn zero_page_word(&mut self, z: u8) -> (r: u16)
        requires
            old(self).wf(),
        ensures
            final(self).wf(),
            (final(self)@, r) == old(self)@.zero_page_word(z),
    {
        let low = self.read(z as u16);
        let high = self.read(z.wrapping_add(1) as u16);
        high as u16 * 256 + low as u16
    }

    fn indexed_indirect(&mut self, addr: u16) -> (r: (u16, bool))
        requires
            old(self).wf(),
        ensures
            final(self).wf(),
            (final(self)@, r.0, r.1) == old(self)@.indexed_indirect(addr),
    {
        let val = self.read(addr);
        let ea = self.zero_page_word(val.wrapping_add(self.x.value()));
        (ea, false)
    }

    fn indirect_indexed(&mut self, addr: u16) -> (r: (u16, bool))
        requires
            old(self).wf(),
        ensures
            final(self).wf(),
            (final(self)@, r.0, r.1) == old(self)@.indirect_indexed(addr),
    {
        let val = self.read(addr);
        let base = self.zero_page_word(val);
        let ea = base.wrapping_add(self.y.value() as u16);
        (ea, CPU::crossed_page(base, ea))
    }

    /// The effective address of an operand stored at `addr` under `mode`, and whether an
    /// indexed access crossed a page. An immediate (or implied) operand's address is `addr`
    /// itself.
    pub fn get_param_address(&mut self, mode: &Addressing, addr: u16) -> (r: (u16, bool))
        requires
            old(self).wf(),
        ensures
            final(self).wf(),
            (final(self)@, r.0, r.1) == old(self)@.param_address(*mode, addr),
            final(self)@ == (CpuState { bus: final(self)@.bus, ..old(self)@ }),
    {
        reveal(CpuState::param_address);
        match *mode {
            Addressing::ZeroPage => self.zero_page_indexed(addr, 0),
            Addressing::ZeroPageX => {
                let x = self.x.value();
                self.zero_page_indexed(addr, x)
            },
            Addressing::ZeroPageY => {
                let y = self.y.value();
                self.zero_page_indexed(addr, y)
            },
            Addressing::Absolute => (self.read_u16(addr), false),
            Addressing::AbsoluteX => {
                let x = self.x.value();
                self.absolute_indexed(addr, x)
            },
            Addressing::AbsoluteY => {
                let y = self.y.value();
                self.absolute_indexed(addr, y)
            },
            Addressing::IndirectX => self.indexed_indirect(addr),
            Addressing::IndirectY => self.indirect_indexed(addr),
            _ => (addr, false),
        }
    }

    /// The operand address of the instruction at PC.
    fn get_param_address_internal(&mut self, mode: &Addressing) -> (r: (u16, bool))
        requires
            old(self).wf(),
        ensures
            final(self).wf(),
            (final(self)@, r.0, r.1) == old(self)@.operand_address(*mode),
            final(self)@ == (CpuState { bus: final(self)@.bus, ..old(self)@ }),
    {
        reveal(CpuState::operand_address);
        match mode {
            Addressing::Immediate | Addressing::Implied => (self.prog_counter, false),
            _ => self.get_param_address(mode, self.prog_counter),
        }
    }

    /// Reads the operand byte of the instruction at PC.
    fn operand(&mut self, mode: &Addressing) -> (r: (u8, bool))
        requires
            old(self).wf(),
        ensures
            final(self).wf(),
            (final(self)@, r.0, r.1) == old(self)@.operand(*mode),
            final(self)@ == (CpuState { bus: final(self)@.bus, ..old(self)@ }),
    {
        reveal(CpuState::operand);
        let (address, cross) = self.get_param_address_internal(mode);
        let param = self.read(address);
        (param, cross)
    }
    fn add_to_a(&mut self, val: u8)
        ensures
            final(self)@ == old(self)@.add_to_a(val),
            final(self)@.bus == old(self)@.bus,
    {
        reveal(CpuState::add_to_a);
        let carry_in: u16 = if self.status.is_set(Status::Carry.as_u8()) { 1 } else { 0 };
        let sum: u16 = self.a.value() as u16 + val as u16 + carry_in;
        self.status.set(Status::Carry.as_u8(), sum > 0xFF);
        let res = (sum % 256) as u8;
        let a = self.a.value();
        self.status.set(Status::Overflow.as_u8(), (val ^ res) & (res ^ a) & 0x80 != 0);
        self.a.set(res);
        self.zero_negative(res);
    }

    fn adc(&mut self, mode: &Addressing)
        requires
            old(self).wf(),
        ensures
            final(self).wf(),
            final(self)@ == old(self)@.adc(*mode),
    {
        let (param, cross) = self.operand(mode);
        self.add_to_a(param);
        self.tick_if(cross);
    }

    fn sbc(&mut self, mode: &Addressing)
        requires
            old(self).wf(),
        ensures
            final(self).wf(),
            final(self)@ == old(self)@.sbc(*mode),
    {
        let (param, cross) = self.operand(mode);
        self.add_to_a(!param);
        self.tick_if(cross);
    }

    fn and(&mut self, mode: &Addressing)
        requires
            old(self).wf(),
        ensures
            final(self).wf(),
            final(self)@ == old(self)@.and(*mode),
    {
        let (param, cross) = self.operand(mode);
        let res = self.a.value() & param;
        self.a.set(res);
        self.zero_negative(res);
        self.tick_if(cross);
    }

    fn eor(&mut self, mode: &Addressing)
        requires
            old(self).wf(),
        ensures
            final(self).wf(),
            final(self)@ == old(self)@.eor(*mode),
    {
        let (param, cross) = self.operand(mode);
        let res = self.a.value() ^ param;
        self.a.set(res);
        self.zero_negative(res);
        self.tick_if(cross);
    }

    fn ora(&mut self, mode: &Addressing)
        requires
            old(self).wf(),
        ensures
            final(self).wf(),
            final(self)@ == old(self)@.ora(*mode),
    {
        let (param, cross) = self.operand(mode);
        let res = self.a.value() | param;
        self.a.set(res);
        self.zero_negative(res);
        self.tick_if(cross);
    }

    fn lda(&mut self, mode: &Addressing)
        requires
            old(self).wf(),
        ensures
            final(self).wf(),
            final(self)@ == old(self)@.lda(*mode),
    {
        let (param, cross) = self.operand(mode);
        self.a.set(param);
        self.zero_negative(param);
        self.tick_if(cross);
    }

    fn ldx(&mut self, mode: &Addressing)
        requires
            old(self).wf(),
        ensures
            final(self).wf(),
            final(self)@ == old(self)@.ldx(*mode),
    {
        let (param, cross) = self.operand(mode);
        self.x.set(param);
        self.zero_negative(param);
        self.tick_if(cross);
    }

    fn ldy(&mut self, mode: &Addressing)
        requires
            old(self).wf(),
        ensures
            final(self).wf(),
            final(self)@ == old(self)@.ldy(*mode),
    {
        let (param, cross) = self.operand(mode);
        self.y.set(param);
        self.zero_negative(param);
        self.tick_if(cross);
    }

    /// Computes a shift of `v` with carry-in `c`.
    fn shift_value(op: Shift, v: u8, c: bool) -> (r: (u8, bool))
        ensures
            r == shift_value(op, v, c),
    {
        match op {
            Shift::Asl => (v << 1, v >> 7 == 1),
            Shift::Lsr => (v >> 1, v & 1 == 1),
            Shift::Rol => (if c { (v << 1) | 1 } else { v << 1 }, v >> 7 == 1),
            Shift::Ror => (if c { (v >> 1) | 0x80 } else { v >> 1 }, v & 1 == 1),
        }
    }

    fn shift_accumulator(&mut self, op: Shift)
        ensures
            final(self)@ == old(self)@.shift_a(op),
    {
        let c = self.status.is_set(Status::Carry.as_u8());
        let (res, out) = CPU::shift_value(op, self.a.value(), c);
        self.status.set(Status::Carry.as_u8(), out);
        self.a.set(res);
        self.zero_negative(res);
    }

    fn shift_memory(&mut self, op: Shift, mode: &Addressing) -> (r: u8)
        requires
            old(self).wf(),
        ensures
            final(self).wf(),
            (final(self)@, r) == old(self)@.shift_mem(op, *mode),
    {
        reveal(CpuState::shift_mem);
        let c = self.status.is_set(Status::Carry.as_u8());
        let (address, _) = self.get_param_address_internal(mode);
        let param = self.read(address);
        let (res, out) = CPU::shift_value(op, param, c);
        let _ = self.write(address, res);
        self.status.set(Status::Carry.as_u8(), out);
        self.zero_negative(res);
        res
    }

    fn asl_a(&mut self)
        ensures
            final(self)@ == old(self)@.shift_a(Shift::Asl),
    {
        self.shift_accumulator(Shift::Asl);
    }

    fn asl(&mut self, mode: &Addressing) -> (r: u8)
        requires
            old(self).wf(),
        ensures
            final(self).wf(),
            (final(self)@, r) == old(self)@.shift_mem(Shift::Asl, *mode),
    {
        reveal(CpuState::shift_mem);
        self.shift_memory(Shift::Asl, mode)
    }

    fn lsr_a(&mut self)
        ensures
            final(self)@ == old(self)@.shift_a(Shift::Lsr),
    {
        self.shift_accumulator(Shift::Lsr);
    }

    fn lsr(&mut self, mode: &Addressing) -> (r: u8)
        requires
            old(self).wf(),
        ensures
            final(self).wf(),
            (final(self)@, r) == old(self)@.shift_mem(Shift::Lsr, *mode),
    {
        reveal(CpuState::shift_mem);
        self.shift_memory(Shift::Lsr, mode)
    }

    fn rol_a(&mut self)
        ensures
            final(self)@ == old(self)@.shift_a(Shift::Rol),
    {
        self.shift_accumulator(Shift::Rol);
    }

    fn rol(&mut self, mode: &Addressing) -> (r: u8)
        requires
            old(self).wf(),
        ensures
            final(self).wf(),
            (final(self)@, r) == old(self)@.shift_mem(Shift::Rol, *mode),
    {
        reveal(CpuState::shift_mem);
        self.shift_memory(Shift::Rol, mode)
    }

    fn ror_a(&mut self)
        ensures
            final(self)@ == old(self)@.shift_a(Shift::Ror),
    {
        self.shift_accumulator(Shift::Ror);
    }

    fn ror(&mut self, mode: &Addressing) -> (r: u8)
        requires
            old(self).wf(),
        ensures
            final(self).wf(),
            (final(self)@, r) == old(self)@.shift_mem(Shift::Ror, *mode),
    {
        reveal(CpuState::shift_mem);
        self.shift_memory(Shift::Ror, mode)
    }

    fn step_memory(&mut self, mode: &Addressing, delta: u8) -> (r: u8)
        requires
            old(self).wf(),
        ensures
            final(self).wf(),
            (final(self)@, r) == old(self)@.step_mem(*mode, delta),
    {
        reveal(CpuState::step_mem);
        let (address, _) = self.get_param_address_internal(mode);
        let param = self.read(address);
        let res = param.wrapping_add(delta);
        let _ = self.write(address, res);
        self.zero_negative(res);
        res
    }

    fn dec(&mut self, mode: &Addressing) -> (r: u8)
        requires
            old(self).wf(),
        ensures
            final(self).wf(),
            (final(self)@, r) == old(self)@.step_mem(*mode, 255),
    {
        reveal(CpuState::step_mem);
        self.step_memory(mode, 255)
    }

    fn inc(&mut self, mode: &Addressing) -> (r: u8)
        requires
            old(self).wf(),
        ensures
            final(self).wf(),
            (final(self)@, r) == old(self)@.step_mem(*mode, 1),
    {
        reveal(CpuState::step_mem);
        self.step_memory(mode, 1)
    }

    fn dex(&mut self)
        ensures
            final(self)@ == old(self)@.set_x(((old(self)@.x + 255) % 256) as u8),
    {
        self.x.subtract(1);
        let v = self.x.value();
        self.zero_negative(v);
    }

    fn dey(&mut self)
        ensures
            final(self)@ == old(self)@.set_y(((old(self)@.y + 255) % 256) as u8),
    {
        self.y.subtract(1);
        let v = self.y.value();
        self.zero_negative(v);
    }

    fn inx(&mut self)
        ensures
            final(self)@ == old(self)@.set_x(((old(self)@.x + 1) % 256) as u8),
    {
        self.x.add(1);
        let v = self.x.value();
        self.zero_negative(v);
    }

    fn iny(&mut self)
        ensures
            final(self)@ == old(self)@.set_y(((old(self)@.y + 1) % 256) as u8),
    {
        self.y.add(1);
        let v = self.y.value();
        self.zero_negative(v);
    }

    fn bit(&mut self, mode: &Addressing)
        requires
            old(self).wf(),
        ensures
            final(self).wf(),
            final(self)@ == old(self)@.bit(*mode),
    {
        reveal(CpuState::bit);
        let (param, _) = self.operand(mode);
        let a = self.a.value();
        self.status.set(Status::Zero.as_u8(), a & param == 0);
        self.status.set(Status::Negative.as_u8(), param & Status::Negative.as_u8() > 0);
        self.status.set(Status::Overflow.as_u8(), param & Status::Overflow.as_u8() > 0);
    }

    fn compare(&mut self, reg_val: u8, mode: &Addressing)
        requires
            old(self).wf(),
        ensures
            final(self).wf(),
            final(self)@ == old(self)@.compare(reg_val, *mode),
    {
        reveal(CpuState::compare);
        let (param, cross) = self.operand(mode);
        self.status.set(Status::Carry.as_u8(), param <= reg_val);
        self.zero_negative(reg_val.wrapping_sub(param));
        self.tick_if(cross);
    }

    fn branch(&mut self, condition: bool)
        requires
            old(self).wf(),
        ensures
            final(self).wf(),
            final(self)@ == old(self)@.branch(condition),
    {
        reveal(CpuState::branch);
        if condition {
            self.tick(1);
            let offset = self.read(self.prog_counter);
            let next = self.prog_counter.wrapping_add(1);
            let addend: u16 = if offset >= 128 { offset as u16 + 0xFF00 } else { offset as u16 };
            let jump_addr = next.wrapping_add(addend);
            let crossed = CPU::crossed_page(next, jump_addr);
            self.tick_if(crossed);
            self.prog_counter = jump_addr;
        }
    }

    fn clear_status(&mut self, status: Status)
        ensures
            final(self)@ == (CpuState { p: old(self)@.p & !status.bit(), ..old(self)@ }),
    {
        reveal(CpuState::bit);
        self.status.remove(status.as_u8());
    }

    fn set_status(&mut self, status: Status)
        ensures
            final(self)@ == (CpuState { p: old(self)@.p | status.bit(), ..old(self)@ }),
    {
        reveal(CpuState::bit);
        self.status.add(status.as_u8());
    }

    /// JMP absolute: PC becomes the word at PC.
    pub fn jmp_abs(&mut self)
        requires
            old(self).wf(),
        ensures
            final(self).wf(),
            final(self)@ == old(self)@.jmp_abs(),
    {
        let address = self.read_u16(self.prog_counter);
        self.prog_counter = address;
    }

    /// Whether a pointer sits on the last byte of a page.
    pub(crate) fn is_page_boundary(address: u16) -> (r: bool)
        ensures
            r == (address % 256 == 255),
    {
        let r = address & 0x00FF == 0x00FF;
        assert(r == (address % 256 == 255)) by (bit_vector)
            requires
                r == (address & 0x00FFu16 == 0x00FFu16),
        ;
        r
    }

    /// Reads the word at a page-final pointer the way the 6502 does: the high byte from
    /// the start of the same page.
    pub(crate) fn read_indirect_address(&mut self, mem_address: u16) -> (r: u16)
        requires
            old(self).wf(),
            mem_address % 256 == 255,
        ensures
            final(self).wf(),
            ({
                let (s1, lo) = old(self)@.read(mem_address);
                let (s2, hi) = s1.read((mem_address - 255) as u16);
                final(self)@ == s2 && r == (hi as int * 256 + lo as int) as u16
            }),
    {
        let lo = self.read(mem_address);
        let page = mem_address & 0xFF00;
        assert(page == mem_address - 255) by (bit_vector)
            requires
                page == mem_address & 0xFF00u16,
                mem_address % 256 == 255,
        ;
        let hi = self.read(page);
        hi as u16 * 256 + lo as u16
    }

    /// JMP indirect, with the 6502's page bug (see `CpuState::jmp_ind`).
    pub fn jmp_ind(&mut self)
        requires
            old(self).wf(),
        ensures
            final(self).wf(),
            final(self)@ == old(self)@.jmp_ind(),
    {
        reveal(CpuState::jmp_ind);
        let address = self.read_u16(self.prog_counter);
        let indirect_ref = if CPU::is_page_boundary(address) {
            self.read_indirect_address(address)
        } else {
            self.read_u16(address)
        };
        self.prog_counter = indirect_ref;
    }

    /// JSR: pushes the address of the JSR's last byte, then jumps.
    pub fn jsr(&mut self)
        requires
            old(self).wf(),
        ensures
            final(self).wf(),
            final(self)@ == old(self)@.jsr(),
    {
        reveal(CpuState::jsr);
        self.stack_push_u16(self.prog_counter.wrapping_add(1));
        let address = self.read_u16(self.prog_counter);
        self.prog_counter = address;
    }

    /// PHA: pushes A.
    pub fn pha(&mut self)
        requires
            old(self).wf(),
        ensures
            final(self).wf(),
            final(self)@ == old(self)@.push(old(self)@.a),
    {
        self.stack_push(self.a.value());
    }

    /// PHP: pushes P with Break and Break2 set.
    pub fn php(&mut self)
        requires
            old(self).wf(),
        ensures
            final(self).wf(),
            final(self)@ == old(self)@.php(),
    {
        let mut flags = self.status;
        flags.add(Status::Break.as_u8());
        flags.add(Status::Break2.as_u8());
        self.stack_push(flags.value);
    }

    /// PLA: pulls A, setting Zero and Negative.
    pub fn pla(&mut self)
        requires
            old(self).wf(),
        ensures
            final(self).wf(),
            final(self)@ == old(self)@.pla(),
    {
        let data = self.stack_pop();
        self.a.set(data);
        self.zero_negative(data);
    }

    /// PLP: pulls P, then clears Break and sets Break2.
    pub fn plp(&mut self)
        requires
            old(self).wf(),
        ensures
            final(self).wf(),
            final(self)@ == old(self)@.plp(),
    {
        let val = self.stack_pop();
        self.status.set_bits(val);
        self.status.remove(Status::Break.as_u8());
        self.status.add(Status::Break2.as_u8());
    }

    /// RTI: pulls P (Break cleared, Break2 set), then PC, without adding one.
    pub fn rti(&mut self)
        requires
            old(self).wf(),
        ensures
            final(self).wf(),
            final(self)@ == old(self)@.rti(),
    {
        reveal(CpuState::rti);
        let val = self.stack_pop();
        self.status.set_bits(val);
        self.status.remove(Status::Break.as_u8());
        self.status.add(Status::Break2.as_u8());
        self.prog_counter = self.stack_pop_u16();
    }

    /// RTS: pulls PC and adds one.
    pub fn rts(&mut self)
        requires
            old(self).wf(),
        ensures
            final(self).wf(),
            final(self)@ == old(self)@.rts(),
    {
        self.prog_counter = self.stack_pop_u16().wrapping_add(1);
    }

    fn sta(&mut self, mode: &Addressing)
        requires
            old(self).wf(),
        ensures
            final(self).wf(),
            final(self)@ == old(self)@.store(*mode, old(self)@.a),
    {
        let (address, _) = self.get_param_address_internal(mode);
        let _ = self.write(address, self.a.value());
    }

    fn stx(&mut self, mode: &Addressing)
        requires
            old(self).wf(),
        ensures
            final(self).wf(),
            final(self)@ == old(self)@.store(*mode, old(self)@.x),
    {
        let (address, _) = self.get_param_address_internal(mode);
        let _ = self.write(address, self.x.value());
    }

    fn sty(&mut self, mode: &Addressing)
        requires
            old(self).wf(),
        ensures
            final(self).wf(),
            final(self)@ == old(self)@.store(*mode, old(self)@.y),
    {
        let (address, _) = self.get_param_address_internal(mode);
        let _ = self.write(address, self.y.value());
    }

    fn tax(&mut self)
        ensures
            final(self)@ == old(self)@.set_x(old(self)@.a),
    {
        let v = self.a.value();
        self.x.set(v);
        self.zero_negative(v);
    }

    fn tay(&mut self)
        ensures
            final(self)@ == old(self)@.set_y(old(self)@.a),
    {
        let v = self.a.value();
        self.y.set(v);
        self.zero_negative(v);
    }

    fn tsx(&mut self)
        ensures
            final(self)@ == old(self)@.set_x(old(self)@.sp),
    {
        let v = self.stack_pointer;
        self.x.set(v);
        self.zero_negative(v);
    }

    fn txa(&mut self)
        ensures
            final(self)@ == old(self)@.set_a(old(self)@.x),
    {
        let v = self.x.value();
        self.a.set(v);
        self.zero_negative(v);
    }

    fn txs(&mut self)
        ensures
            final(self)@ == (CpuState { sp: old(self)@.x, ..old(self)@ }),
    {
        self.stack_pointer = self.x.value();
    }

    fn tya(&mut self)
        ensures
            final(self)@ == old(self)@.set_a(old(self)@.y),
    {
        let v = self.y.value();
        self.a.set(v);
        self.zero_negative(v);
    }
    /// Services an interrupt: pushes PC (high byte first) and the status with the Break bits
    /// that the interrupt's mask gives, disables interrupts, lets the interrupt's cycles pass
    /// and loads PC from its vector.
    pub fn interrupt(&mut self, interrupt: Interrupt)
        requires
            old(self).wf(),
            interrupt.cycles <= 85,
        ensures
            final(self).wf(),
            final(self)@ == old(self)@.interrupt(interrupt),
    {
        reveal(CpuState::interrupt);
        self.stack_push_u16(self.prog_counter);
        let mut status = self.status;
        status.set(Status::Break.as_u8(), interrupt.flag_mask & 0x10 != 0);
        status.set(Status::Break2.as_u8(), interrupt.flag_mask & 0x20 != 0);
        self.stack_push(status.value);
        self.status.add(Status::InterruptDisable.as_u8());
        self.tick(interrupt.cycles);
        self.prog_counter = self.read_u16(interrupt.address);
    }

    /// Runs the handler of a decoded instruction.
    fn execute(&mut self, ins: &Instruction)
        requires
            old(self).wf(),
        ensures
            final(self).wf(),
            final(self)@ == old(self)@.execute(*ins),
    {
        match ins.name {
            OpName::ADC | OpName::AND | OpName::ASL_A | OpName::ASL | OpName::BIT | OpName::BCS | OpName::BCC | OpName::BEQ => self.execute_group0(ins),
            OpName::BNE | OpName::BMI | OpName::BPL | OpName::BVS | OpName::BVC | OpName::BRK | OpName::CLC | OpName::CLD => self.execute_group1(ins),
            OpName::CLI | OpName::CLV | OpName::CMP | OpName::CPX | OpName::CPY | OpName::DEC | OpName::DEX | OpName::DEY => self.execute_group2(ins),
            OpName::EOR | OpName::INC | OpName::INX | OpName::INY | OpName::JMP_ABS | OpName::JMP_IND | OpName::JSR | OpName::LDA => self.execute_group3(ins),
            OpName::LDX | OpName::LDY | OpName::LSR_A | OpName::LSR | OpName::NOP | OpName::ORA | OpName::PHA | OpName::PHP => self.execute_group4(ins),
            OpName::PLA | OpName::PLP | OpName::ROL_A | OpName::ROL | OpName::ROR_A | OpName::ROR | OpName::RTI | OpName::RTS => self.execute_group5(ins),
            OpName::SBC | OpName::SEC | OpName::SED | OpName::SEI | OpName::STA | OpName::STX | OpName::STY | OpName::TAX => self.execute_group6(ins),
            OpName::TAY | OpName::TSX | OpName::TXA | OpName::TXS | OpName::TYA => self.execute_group7(ins),
        }
    }

    /// Handlers of the operations in alphabetical block 0 of the dispatch.
    fn execute_group0(&mut self, ins: &Instruction)
        requires
            old(self).wf(),
            ins.name == OpName::ADC || ins.name == OpName::AND || ins.name == OpName::ASL_A || ins.name == OpName::ASL || ins.name == OpName::BIT || ins.name == OpName::BCS || ins.name == OpName::BCC || ins.name == OpName::BEQ,
        ensures
            final(self).wf(),
            final(self)@ == old(self)@.execute(*ins),
    {
        reveal(CpuState::execute);
        match ins.name {
            OpName::ADC => self.adc(&ins.mode),
            OpName::AND => self.and(&ins.mode),
            OpName::ASL_A => self.asl_a(),
            OpName::ASL => {
                self.asl(&ins.mode);
            },
            OpName::BIT => self.bit(&ins.mode),
            OpName::BCS => {
                let c = self.status.is_set(Status::Carry.as_u8());
                self.branch(c)
            },
            OpName::BCC => {
                let c = !self.status.is_set(Status::Carry.as_u8());
                self.branch(c)
            },
            OpName::BEQ => {
                let c = self.status.is_set(Status::Zero.as_u8());
                self.branch(c)
            },
            _ => {},
        }
    }

    /// Handlers of the operations in alphabetical block 1 of the dispatch.
    fn execute_group1(&mut self, ins: &Instruction)
        requires
            old(self).wf(),
            ins.name == OpName::BNE || ins.name == OpName::BMI || ins.name == OpName::BPL || ins.name == OpName::BVS || ins.name == OpName::BVC || ins.name == OpName::BRK || ins.name == OpName::CLC || ins.name == OpName::CLD,
        ensures
            final(self).wf(),
            final(self)@ == old(self)@.execute(*ins),
    {
        reveal(CpuState::execute);
        match ins.name {
            OpName::BNE => {
                let c = !self.status.is_set(Status::Zero.as_u8());
                self.branch(c)
            },
            OpName::BMI => {
                let c = self.status.is_set(Status::Negative.as_u8());
                self.branch(c)
            },
            OpName::BPL => {
                let c = !self.status.is_set(Status::Negative.as_u8());
                self.branch(c)
            },
            OpName::BVS => {
                let c = self.status.is_set(Status::Overflow.as_u8());
                self.branch(c)
            },
            OpName::BVC => {
                let c = !self.status.is_set(Status::Overflow.as_u8());
                self.branch(c)
            },
            OpName::BRK => {},
            OpName::CLC => self.clear_status(Status::Carry),
            OpName::CLD => self.clear_status(Status::Decimal),
            _ => {},
        }
    }

    /// Handlers of the operations in alphabetical block 2 of the dispatch.
    fn execute_group2(&mut self, ins: &Instruction)
        requires
            old(self).wf(),
            ins.name == OpName::CLI || ins.name == OpName::CLV || ins.name == OpName::CMP || ins.name == OpName::CPX || ins.name == OpName::CPY || ins.name == OpName::DEC || ins.name == OpName::DEX || ins.name == OpName::DEY,
        ensures
            final(self).wf(),
            final(self)@ == old(self)@.execute(*ins),
    {
        reveal(CpuState::execute);
        match ins.name {
            OpName::CLI => self.clear_status(Status::InterruptDisable),
            OpName::CLV => self.clear_status(Status::Overflow),
            OpName::CMP => {
                let v = self.a.value();
                self.compare(v, &ins.mode)
            },
            OpName::CPX => {
                let v = self.x.value();
                self.compare(v, &ins.mode)
            },
            OpName::CPY => {
                let v = self.y.value();
                self.compare(v, &ins.mode)
            },
            OpName::DEC => {
                self.dec(&ins.mode);
            },
            OpName::DEX => self.dex(),
            OpName::DEY => self.dey(),
            _ => {},
        }
    }

    /// Handlers of the operations in alphabetical block 3 of the dispatch.
    fn execute_group3(&mut self, ins: &Instruction)
        requires
            old(self).wf(),
            ins.name == OpName::EOR || ins.name == OpName::INC || ins.name == OpName::INX || ins.name == OpName::INY || ins.name == OpName::JMP_ABS || ins.name == OpName::JMP_IND || ins.name == OpName::JSR || ins.name == OpName::LDA,
        ensures
            final(self).wf(),
            final(self)@ == old(self)@.execute(*ins),
    {
        reveal(CpuState::execute);
        match ins.name {
            OpName::EOR => self.eor(&ins.mode),
            OpName::INC => {
                self.inc(&ins.mode);
            },
            OpName::INX => self.inx(),
            OpName::INY => self.iny(),
            OpName::JMP_ABS => self.jmp_abs(),
            OpName::JMP_IND => self.jmp_ind(),
            OpName::JSR => self.jsr(),
            OpName::LDA => self.lda(&ins.mode),
            _ => {},
        }
    }

    /// Handlers of the operations in alphabetical block 4 of the dispatch.
    fn execute_group4(&mut self, ins: &Instruction)
        requires
            old(self).wf(),
            ins.name == OpName::LDX || ins.name == OpName::LDY || ins.name == OpName::LSR_A || ins.name == OpName::LSR || ins.name == OpName::NOP || ins.name == OpName::ORA || ins.name == OpName::PHA || ins.name == OpName::PHP,
        ensures
            final(self).wf(),
            final(self)@ == old(self)@.execute(*ins),
    {
        reveal(CpuState::execute);
        match ins.name {
            OpName::LDX => self.ldx(&ins.mode),
            OpName::LDY => self.ldy(&ins.mode),
            OpName::LSR_A => self.lsr_a(),
            OpName::LSR => {
                self.lsr(&ins.mode);
            },
            OpName::NOP => {},
            OpName::ORA => self.ora(&ins.mode),
            OpName::PHA => self.pha(),
            OpName::PHP => self.php(),
            _ => {},
        }
    }

    /// Handlers of the operations in alphabetical block 5 of the dispatch.
    fn execute_group5(&mut self, ins: &Instruction)
        requires
            old(self).wf(),
            ins.name == OpName::PLA || ins.name == OpName::PLP || ins.name == OpName::ROL_A || ins.name == OpName::ROL || ins.name == OpName::ROR_A || ins.name == OpName::ROR || ins.name == OpName::RTI || ins.name == OpName::RTS,
        ensures
            final(self).wf(),
            final(self)@ == old(self)@.execute(*ins),
    {
        reveal(CpuState::execute);
        match ins.name {
            OpName::PLA => self.pla(),
            OpName::PLP => self.plp(),
            OpName::ROL_A => self.rol_a(),
            OpName::ROL => {
                self.rol(&ins.mode);
            },
            OpName::ROR_A => self.ror_a(),
            OpName::ROR => {
                self.ror(&ins.mode);
            },
            OpName::RTI => self.rti(),
            OpName::RTS => self.rts(),
            _ => {},
        }
    }

    /// Handlers of the operations in alphabetical block 6 of the dispatch.
    fn execute_group6(&mut self, ins: &Instruction)
        requires
            old(self).wf(),
            ins.name == OpName::SBC || ins.name == OpName::SEC || ins.name == OpName::SED || ins.name == OpName::SEI || ins.name == OpName::STA || ins.name == OpName::STX || ins.name == OpName::STY || ins.name == OpName::TAX,
        ensures
            final(self).wf(),
            final(self)@ == old(self)@.execute(*ins),
    {
        reveal(CpuState::execute);
        match ins.name {
            OpName::SBC => self.sbc(&ins.mode),
            OpName::SEC => self.set_status(Status::Carry),
            OpName::SED => self.set_status(Status::Decimal),
            OpName::SEI => self.set_status(Status::InterruptDisable),
            OpName::STA => self.sta(&ins.mode),
            OpName::STX => self.stx(&ins.mode),
            OpName::STY => self.sty(&ins.mode),
            OpName::TAX => self.tax(),
            _ => {},
        }
    }

    /// Handlers of the operations in alphabetical block 7 of the dispatch.
    fn execute_group7(&mut self, ins: &Instruction)
        requires
            old(self).wf(),
            ins.name == OpName::TAY || ins.name == OpName::TSX || ins.name == OpName::TXA || ins.name == OpName::TXS || ins.name == OpName::TYA,
        ensures
            final(self).wf(),
            final(self)@ == old(self)@.execute(*ins),
    {
        reveal(CpuState::execute);
        match ins.name {
            OpName::TAY => self.tay(),
            OpName::TSX => self.tsx(),
            OpName::TXA => self.txa(),
            OpName::TXS => self.txs(),
            OpName::TYA => self.tya(),
            _ => {},
        }
    }

    /// One interpreter step: services a pending NMI, then fetches, decodes and runs one
    /// instruction and lets its base cycles pass. BRK and unknown opcodes end the program.
    pub fn step(&mut self) -> (r: StepOutcome)
        requires
            old(self).wf(),
        ensures
            final(self).wf(),
            (final(self)@, r) == old(self)@.step(),
    {
        if self.bus.nmi_status() {
            self.interrupt(Interrupt::nmi());
        }
        let ins_code = self.read(self.prog_counter);
        self.prog_counter = self.prog_counter.wrapping_add(1);
        let prog_counter_state = self.prog_counter;
        let ins = match decode(ins_code) {
            Some(instruction) => instruction,
            None => {
                return StepOutcome::UnrecognizedOpcode(ins_code);
            },
        };
        if let OpName::BRK = ins.name {
            return StepOutcome::Break;
        }
        self.execute(&ins);
        self.tick(ins.cycles);
        if self.prog_counter == prog_counter_state {
            self.prog_counter = self.prog_counter.wrapping_add((ins.bytes - 1) as u16);
        }
        StepOutcome::Continue
    }

    /// Runs at most `max_steps` steps, stopping at BRK or an unknown opcode; returns how the
    /// last step ended (`Continue` when the steps ran out).
    pub fn run(&mut self, max_steps: u64) -> (r: StepOutcome)
        requires
            old(self).wf(),
        ensures
            final(self).wf(),
            (final(self)@, r) == old(self)@.run(max_steps as nat),
    {
        let mut i: u64 = 0;
        while i < max_steps
            invariant
                self.wf(),
                i <= max_steps,
                old(self)@.run(max_steps as nat) == self@.run((max_steps - i) as nat),
            decreases max_steps - i,
        {
            let outcome = self.step();
            match outcome {
                StepOutcome::Continue => {},
                _ => {
                    return outcome;
                },
            }
            i = i + 1;
        }
        StepOutcome::Continue
    }

    /// Runs the program until BRK or an unknown opcode (bounded only by 2^64 steps).
    pub fn interpret(&mut self)
        requires
            old(self).wf(),
        ensures
            final(self).wf(),
            final(self)@ == old(self)@.run(u64::MAX as nat).0,
    {
        self.run(u64::MAX);
    }

    /// Replaces PRG ROM by a 32 KiB image holding `program` at $8000 with the reset vector
    /// pointing there, then resets.
    pub fn load_program(&mut self, program: Vec<u8>) -> (r: Result<(), LoadError>)
        requires
            old(self).wf(),
        ensures
            final(self).wf(),
            r is Ok <==> program@.len() <= MAX_PROGRAM,
            r is Ok ==> final(self)@ == (CpuState {
                bus: BusState { prg: program_image(program@), ..old(self)@.bus },
                ..old(self)@
            }).reset(),
            r is Err ==> final(self)@ == old(self)@,
    {
        if program.len() > MAX_PROGRAM {
            return Err(LoadError::ProgramTooLarge);
        }
        let mut image: Vec<u8> = Vec::with_capacity(0x8000);
        let mut i: usize = 0;
        while i < 0x8000
            invariant
                program@.len() <= MAX_PROGRAM,
                i <= 0x8000,
                image@ == program_image(program@).subrange(0, i as int),
            decreases 0x8000 - i,
        {
            let byte = if i < program.len() {
                program[i]
            } else if i == 0x7FFD {
                0x80
            } else {
                0
            };
            image.push(byte);
            i = i + 1;
            assert(image@ =~= program_image(program@).subrange(0, i as int));
        }
        assert(image@ =~= program_image(program@));
        self.bus.prg = image;
        self.reset();
        Ok(())
    }
}

} // verus!
