use vstd::prelude::*;
use crate::cpu::addressing::Addressing;
use crate::cpu::cartridge::{rom_error, Cartridge};
use crate::cpu::cpu::{add16, offset16, CpuState, CPU};
use crate::cpu::instructions::{decode, instruction_of, Instruction, OpName};
use crate::cpu::mirroring::Mirroring;

verus! {

/// The ASCII byte of an uppercase hexadecimal digit.
pub open spec fn hex_byte(n: int) -> u8 {
    if n < 10 { (48 + n) as u8 } else { (55 + n) as u8 }
}

/// Two uppercase hex digits of a byte.
pub open spec fn hex2(b: u8) -> Seq<u8> {
    seq![hex_byte(b as int / 16), hex_byte(b as int % 16)]
}

/// Four uppercase hex digits of a word.
pub open spec fn hex4(w: u16) -> Seq<u8> {
    hex2((w / 256) as u8) + hex2((w % 256) as u8)
}

/// `a - b` modulo 2^16.
pub open spec fn sub16(a: u16, b: int) -> u16 {
    ((a - b + 0x10000) % 0x10000) as u16
}

/// The register columns that end every trace line: " A:.. X:.. Y:.. P:.. SP:..".
pub open spec fn registers_text(s: CpuState) -> Seq<u8> {
    seq![32u8, 65, 58] + hex2(s.a) + seq![32u8, 88, 58] + hex2(s.x) + seq![32u8, 89, 58] + hex2(s.y)
        + seq![32u8, 80, 58] + hex2(s.p) + seq![32u8, 83, 80, 58] + hex2(s.sp)
}

/// The three letters of an operation's mnemonic.
pub open spec fn mnemonic_of(name: OpName) -> Seq<u8> {
    match name {
        OpName::ADC => seq![65u8, 68u8, 67u8],
        OpName::AND => seq![65u8, 78u8, 68u8],
        OpName::ASL_A => seq![65u8, 83u8, 76u8],
        OpName::ASL => seq![65u8, 83u8, 76u8],
        OpName::BIT => seq![66u8, 73u8, 84u8],
        OpName::BCS => seq![66u8, 67u8, 83u8],
        OpName::BCC => seq![66u8, 67u8, 67u8],
        OpName::BEQ => seq![66u8, 69u8, 81u8],
        OpName::BNE => seq![66u8, 78u8, 69u8],
        OpName::BMI => seq![66u8, 77u8, 73u8],
        OpName::BPL => seq![66u8, 80u8, 76u8],
        OpName::BVS => seq![66u8, 86u8, 83u8],
        OpName::BVC => seq![66u8, 86u8, 67u8],
        OpName::BRK => seq![66u8, 82u8, 75u8],
        OpName::CLC => seq![67u8, 76u8, 67u8],
        OpName::CLD => seq![67u8, 76u8, 68u8],
        OpName::CLI => seq![67u8, 76u8, 73u8],
        OpName::CLV => seq![67u8, 76u8, 86u8],
        OpName::CMP => seq![67u8, 77u8, 80u8],
        OpName::CPX => seq![67u8, 80u8, 88u8],
        OpName::CPY => seq![67u8, 80u8, 89u8],
        OpName::DEC => seq![68u8, 69u8, 67u8],
        OpName::DEX => seq![68u8, 69u8, 88u8],
        OpName::DEY => seq![68u8, 69u8, 89u8],
        OpName::EOR => seq![69u8, 79u8, 82u8],
        OpName::INC => seq![73u8, 78u8, 67u8],
        OpName::INX => seq![73u8, 78u8, 88u8],
        OpName::INY => seq![73u8, 78u8, 89u8],
        OpName::JMP_ABS => seq![74u8, 77u8, 80u8],
        OpName::JMP_IND => seq![74u8, 77u8, 80u8],
        OpName::JSR => seq![74u8, 83u8, 82u8],
        OpName::LDA => seq![76u8, 68u8, 65u8],
        OpName::LDX => seq![76u8, 68u8, 88u8],
        OpName::LDY => seq![76u8, 68u8, 89u8],
        OpName::LSR_A => seq![76u8, 83u8, 82u8],
        OpName::LSR => seq![76u8, 83u8, 82u8],
        OpName::NOP => seq![78u8, 79u8, 80u8],
        OpName::ORA => seq![79u8, 82u8, 65u8],
        OpName::PHA => seq![80u8, 72u8, 65u8],
        OpName::PHP => seq![80u8, 72u8, 80u8],
        OpName::PLA => seq![80u8, 76u8, 65u8],
        OpName::PLP => seq![80u8, 76u8, 80u8],
        OpName::ROL_A => seq![82u8, 79u8, 76u8],
        OpName::ROL => seq![82u8, 79u8, 76u8],
        OpName::ROR_A => seq![82u8, 79u8, 82u8],
        OpName::ROR => seq![82u8, 79u8, 82u8],
        OpName::RTI => seq![82u8, 84u8, 73u8],
        OpName::RTS => seq![82u8, 84u8, 83u8],
        OpName::SBC => seq![83u8, 66u8, 67u8],
        OpName::SEC => seq![83u8, 69u8, 67u8],
        OpName::SED => seq![83u8, 69u8, 68u8],
        OpName::SEI => seq![83u8, 69u8, 73u8],
        OpName::STA => seq![83u8, 84u8, 65u8],
        OpName::STX => seq![83u8, 84u8, 88u8],
        OpName::STY => seq![83u8, 84u8, 89u8],
        OpName::TAX => seq![84u8, 65u8, 88u8],
        OpName::TAY => seq![84u8, 65u8, 89u8],
        OpName::TSX => seq![84u8, 83u8, 88u8],
        OpName::TXA => seq![84u8, 88u8, 65u8],
        OpName::TXS => seq![84u8, 88u8, 83u8],
        OpName::TYA => seq![84u8, 89u8, 65u8],
    }
}

/// The operand column of a two-byte instruction whose operand byte is `a`. Indirect
/// indexed operands show the pointer as the effective address minus Y.
pub open spec fn operand_text2(
    mode: Addressing,
    a: u8,
    begin: u16,
    mem_addr: u16,
    stored: u8,
    x: u8,
    y: u8,
) -> Seq<u8> {
    match mode {
        Addressing::Immediate => seq![35u8, 36u8] + hex2(a),
        Addressing::ZeroPage => seq![36u8] + hex2(mem_addr as u8) + seq![32u8, 61u8, 32u8] + hex2(stored),
        Addressing::ZeroPageX => seq![36u8] + hex2(a) + seq![44u8, 88u8, 32u8, 64u8, 32u8] + hex2(mem_addr as u8) + seq![32u8, 61u8, 32u8] + hex2(stored),
        Addressing::ZeroPageY => seq![36u8] + hex2(a) + seq![44u8, 89u8, 32u8, 64u8, 32u8] + hex2(mem_addr as u8) + seq![32u8, 61u8, 32u8] + hex2(stored),
        Addressing::IndirectX => seq![40u8, 36u8] + hex2(a) + seq![44u8, 88u8, 41u8, 32u8, 64u8, 32u8] + hex2(((a + x) % 256) as u8) + seq![32u8, 61u8, 32u8]
            + hex4(mem_addr) + seq![32u8, 61u8, 32u8] + hex2(stored),
        Addressing::IndirectY => seq![40u8, 36u8] + hex2(a) + seq![41u8, 44u8, 89u8, 32u8, 61u8, 32u8] + hex4(sub16(mem_addr, y as int)) + seq![32u8, 64u8, 32u8]
            + hex4(mem_addr) + seq![32u8, 61u8, 32u8] + hex2(stored),
        Addressing::Implied => seq![36u8] + hex4(add16(add16(begin as int, 2) as int, offset16(a))),
        _ => Seq::empty(),
    }
}

/// The operand column of a three-byte instruction with operand word `address` (JMP
/// indirect excepted).
pub open spec fn operand_text3(mode: Addressing, address: u16, mem_addr: u16, stored: u8) -> Seq<u8> {
    match mode {
        Addressing::Implied => seq![36u8] + hex4(address),
        Addressing::Absolute => seq![36u8] + hex4(mem_addr) + seq![32u8, 61u8, 32u8] + hex2(stored),
        Addressing::AbsoluteX => seq![36u8] + hex4(address) + seq![44u8, 88u8, 32u8, 64u8, 32u8] + hex4(mem_addr) + seq![32u8, 61u8, 32u8] + hex2(stored),
        Addressing::AbsoluteY => seq![36u8] + hex4(address) + seq![44u8, 89u8, 32u8, 64u8, 32u8] + hex4(mem_addr) + seq![32u8, 61u8, 32u8] + hex2(stored),
        _ => Seq::empty(),
    }
}

/// Whether an opcode is a shift or rotate of the accumulator.
pub open spec fn is_accumulator_op(code: u8) -> bool {
    code == 0x0a || code == 0x4a || code == 0x2a || code == 0x6a
}

/// The target that JMP indirect reads through `ptr`, with the page bug.
pub open spec fn jmp_target(s: CpuState, ptr: u16) -> (CpuState, u16) {
    if ptr % 256 == 255 {
        let (s1, lo) = s.read(ptr);
        let (s2, hi) = s1.read((ptr - 255) as u16);
        (s2, (hi as int * 256 + lo as int) as u16)
    } else {
        s.read_u16(ptr)
    }
}

/// The operand's address and value as the disassembler shows them (zero for immediate and
/// implied operands), read through the bus.
pub open spec fn trace_operand(s: CpuState, mode: Addressing, begin: u16) -> (CpuState, u16, u8) {
    if mode == Addressing::Immediate || mode == Addressing::Implied {
        (s, 0, 0)
    } else {
        let (s1, addr, _) = s.param_address(mode, add16(begin as int, 1));
        let (s2, v) = s1.read(addr);
        (s2, addr, v)
    }
}

/// The instruction's operand bytes and its operand column, read through the bus.
pub open spec fn operand_columns(s: CpuState, ins: Instruction, begin: u16, mem_addr: u16, stored: u8) -> (
    CpuState,
    Seq<u8>,
    Seq<u8>,
) {
    if ins.bytes == 1 {
        (s, Seq::empty(), if is_accumulator_op(ins.address) { seq![65u8, 32u8] } else { Seq::empty() })
    } else if ins.bytes == 2 {
        let (s1, a) = s.read(add16(begin as int, 1));
        (s1, seq![a], operand_text2(ins.mode, a, begin, mem_addr, stored, s.x, s.y))
    } else if ins.bytes == 3 {
        let (s1, lo) = s.read(add16(begin as int, 1));
        let (s2, hi) = s1.read(add16(begin as int, 2));
        let (s3, address) = s2.read_u16(add16(begin as int, 1));
        if ins.mode == Addressing::Implied && ins.address == 0x6c {
            let (s4, target) = jmp_target(s3, address);
            (s4, seq![lo, hi], seq![40u8, 36u8] + hex4(address) + seq![41u8, 32u8, 61u8, 32u8] + hex4(target))
        } else {
            (s3, seq![lo, hi], operand_text3(ins.mode, address, mem_addr, stored))
        }
    } else {
        (s, Seq::empty(), Seq::empty())
    }
}

/// One column of instruction bytes: the byte in hex, or blanks, then a space.
pub open spec fn dump_column(dump: Seq<u8>, i: int) -> Seq<u8> {
    (if i < dump.len() { hex2(dump[i]) } else { seq![32u8, 32] }) + seq![32u8]
}

/// The disassembly part of a line before trimming: address, two spaces, three byte
/// columns and a space, mnemonic, a space, operand column.
pub open spec fn asm_text(begin: u16, dump: Seq<u8>, name: Seq<u8>, text: Seq<u8>) -> Seq<u8> {
    hex4(begin) + seq![32u8, 32] + dump_column(dump, 0) + dump_column(dump, 1) + dump_column(dump, 2)
        + seq![32u8] + name + seq![32u8] + text
}

/// `s` without its trailing spaces.
pub open spec fn trim_spaces(s: Seq<u8>) -> Seq<u8>
    decreases s.len(),
{
    if s.len() > 0 && s.last() == 32 {
        trim_spaces(s.drop_last())
    } else {
        s
    }
}

/// `s` padded with spaces to 47 bytes.
pub open spec fn pad47(s: Seq<u8>) -> Seq<u8> {
    if s.len() < 47 { s + Seq::new((47 - s.len()) as nat, |i: int| 32u8) } else { s }
}

/// A whole line: the disassembly trimmed and padded to 47 columns, then the registers.
#[verifier::opaque]
pub open spec fn format_line(begin: u16, dump: Seq<u8>, name: Seq<u8>, text: Seq<u8>, regs: Seq<u8>) -> Seq<u8> {
    pad47(trim_spaces(asm_text(begin, dump, name, text))) + regs
}

/// The trace line of the instruction at PC and the state after the reads it makes.
/// An unknown opcode shows as "???" with its one byte.
pub open spec fn trace_line(s: CpuState) -> (CpuState, Seq<u8>) {
    let begin = s.pc;
    let (s1, code) = s.read(begin);
    match instruction_of(code) {
        Some(ins) => {
            let (s2, mem_addr, stored) = trace_operand(s1, ins.mode, begin);
            let (s3, tail, text) = operand_columns(s2, ins, begin, mem_addr, stored);
            (s3, format_line(begin, seq![code] + tail, mnemonic_of(ins.name), text, registers_text(s)))
        },
        None => (s1, format_line(begin, seq![code], seq![63u8, 63u8, 63u8], Seq::empty(), registers_text(s))),
    }
}

/// All bytes below 128.
pub open spec fn is_ascii(b: Seq<u8>) -> bool {
    forall|i: int| 0 <= i < b.len() ==> b[i] < 128
}

/// Bytes as the characters with those codes.
pub open spec fn ascii(b: Seq<u8>) -> Seq<char> {
    b.map_values(|c: u8| c as char)
}

/// Relies on String::from_utf8: bytes below 128 are valid UTF-8, each the character with
/// its code.
#[verifier::external_body]
fn ascii_string(bytes: Vec<u8>) -> (r: String)
    requires
        is_ascii(bytes@),
    ensures
        r@ == ascii(bytes@),
{
    String::from_utf8(bytes).unwrap_or_default()
}

fn push_ascii(out: &mut Vec<u8>, c: u8)
    requires
        c < 128,
    ensures
        final(out)@ == old(out)@.push(c),
        is_ascii(old(out)@) ==> is_ascii(final(out)@),
{
    out.push(c);
}

fn hex_digit(n: u8) -> (r: u8)
    requires
        n < 16,
    ensures
        r == hex_byte(n as int),
        r < 128,
{
    if n < 10 {
        48 + n
    } else {
        55 + n
    }
}

fn push_hex2(out: &mut Vec<u8>, b: u8)
    ensures
        final(out)@ == old(out)@ + hex2(b),
        is_ascii(old(out)@) ==> is_ascii(final(out)@),
{
    out.push(hex_digit(b / 16));
    out.push(hex_digit(b % 16));
    assert(final(out)@ =~= old(out)@ + hex2(b));
}

fn push_hex4(out: &mut Vec<u8>, w: u16)
    ensures
        final(out)@ == old(out)@ + hex4(w),
        is_ascii(old(out)@) ==> is_ascii(final(out)@),
{
    push_hex2(out, (w / 256) as u8);
    push_hex2(out, (w % 256) as u8);
    assert(final(out)@ =~= old(out)@ + hex4(w));
}

/// Three ASCII letters.
fn three(a: u8, b: u8, c: u8) -> (r: Vec<u8>)
    requires
        a < 128 && b < 128 && c < 128,
    ensures
        r@ == seq![a, b, c],
        is_ascii(r@),
{
    let mut r: Vec<u8> = Vec::new();
    r.push(a);
    r.push(b);
    r.push(c);
    assert(r@ =~= seq![a, b, c]);
    r
}

/// The three letters of an operation's mnemonic.
fn mnemonic(name: OpName) -> (r: Vec<u8>)
    ensures
        r@ == mnemonic_of(name),
        is_ascii(r@),
{
    match name {
        OpName::ADC => three(65, 68, 67),
        OpName::AND => three(65, 78, 68),
        OpName::ASL_A => three(65, 83, 76),
        OpName::ASL => three(65, 83, 76),
        OpName::BIT => three(66, 73, 84),
        OpName::BCS => three(66, 67, 83),
        OpName::BCC => three(66, 67, 67),
        OpName::BEQ => three(66, 69, 81),
        OpName::BNE => three(66, 78, 69),
        OpName::BMI => three(66, 77, 73),
        OpName::BPL => three(66, 80, 76),
        OpName::BVS => three(66, 86, 83),
        OpName::BVC => three(66, 86, 67),
        OpName::BRK => three(66, 82, 75),
        OpName::CLC => three(67, 76, 67),
        OpName::CLD => three(67, 76, 68),
        OpName::CLI => three(67, 76, 73),
        OpName::CLV => three(67, 76, 86),
        OpName::CMP => three(67, 77, 80),
        OpName::CPX => three(67, 80, 88),
        OpName::CPY => three(67, 80, 89),
        OpName::DEC => three(68, 69, 67),
        OpName::DEX => three(68, 69, 88),
        OpName::DEY => three(68, 69, 89),
        OpName::EOR => three(69, 79, 82),
        OpName::INC => three(73, 78, 67),
        OpName::INX => three(73, 78, 88),
        OpName::INY => three(73, 78, 89),
        OpName::JMP_ABS => three(74, 77, 80),
        OpName::JMP_IND => three(74, 77, 80),
        OpName::JSR => three(74, 83, 82),
        OpName::LDA => three(76, 68, 65),
        OpName::LDX => three(76, 68, 88),
        OpName::LDY => three(76, 68, 89),
        OpName::LSR_A => three(76, 83, 82),
        OpName::LSR => three(76, 83, 82),
        OpName::NOP => three(78, 79, 80),
        OpName::ORA => three(79, 82, 65),
        OpName::PHA => three(80, 72, 65),
        OpName::PHP => three(80, 72, 80),
        OpName::PLA => three(80, 76, 65),
        OpName::PLP => three(80, 76, 80),
        OpName::ROL_A => three(82, 79, 76),
        OpName::ROL => three(82, 79, 76),
        OpName::ROR_A => three(82, 79, 82),
        OpName::ROR => three(82, 79, 82),
        OpName::RTI => three(82, 84, 73),
        OpName::RTS => three(82, 84, 83),
        OpName::SBC => three(83, 66, 67),
        OpName::SEC => three(83, 69, 67),
        OpName::SED => three(83, 69, 68),
        OpName::SEI => three(83, 69, 73),
        OpName::STA => three(83, 84, 65),
        OpName::STX => three(83, 84, 88),
        OpName::STY => three(83, 84, 89),
        OpName::TAX => three(84, 65, 88),
        OpName::TAY => three(84, 65, 89),
        OpName::TSX => three(84, 83, 88),
        OpName::TXA => three(84, 88, 65),
        OpName::TXS => three(84, 88, 83),
        OpName::TYA => three(84, 89, 65),
    }
}

fn text2_immediate(a: u8, begin: u16, mem_addr: u16, stored: u8, x: u8, y: u8) -> (r: Vec<u8>)
    ensures
        r@ == seq![35u8, 36u8] + hex2(a),
        is_ascii(r@),
{
    let mut out: Vec<u8> = Vec::new();
    push_ascii(&mut out, 35);
    push_ascii(&mut out, 36);
    push_hex2(&mut out, a);
    assert(out@ =~= seq![35u8, 36u8] + hex2(a));
    out
}

fn text2_zero_page(a: u8, begin: u16, mem_addr: u16, stored: u8, x: u8, y: u8) -> (r: Vec<u8>)
    ensures
        r@ == seq![36u8] + hex2(mem_addr as u8) + seq![32u8, 61u8, 32u8] + hex2(stored),
        is_ascii(r@),
{
    let mut out: Vec<u8> = Vec::new();
    push_ascii(&mut out, 36);
    push_hex2(&mut out, mem_addr as u8);
    push_ascii(&mut out, 32);
    push_ascii(&mut out, 61);
    push_ascii(&mut out, 32);
    push_hex2(&mut out, stored);
    assert(out@ =~= seq![36u8] + hex2(mem_addr as u8) + seq![32u8, 61u8, 32u8] + hex2(stored));
    out
}

fn text2_zero_page_x(a: u8, begin: u16, mem_addr: u16, stored: u8, x: u8, y: u8) -> (r: Vec<u8>)
    ensures
        r@ == seq![36u8] + hex2(a) + seq![44u8, 88u8, 32u8, 64u8, 32u8] + hex2(mem_addr as u8) + seq![32u8, 61u8, 32u8] + hex2(stored),
        is_ascii(r@),
{
    let mut out: Vec<u8> = Vec::new();
    push_ascii(&mut out, 36);
    push_hex2(&mut out, a);
    push_ascii(&mut out, 44);
    push_ascii(&mut out, 88);
    push_ascii(&mut out, 32);
    push_ascii(&mut out, 64);
    push_ascii(&mut out, 32);
    push_hex2(&mut out, mem_addr as u8);
    push_ascii(&mut out, 32);
    push_ascii(&mut out, 61);
    push_ascii(&mut out, 32);
    push_hex2(&mut out, stored);
    assert(out@ =~= seq![36u8] + hex2(a) + seq![44u8, 88u8, 32u8, 64u8, 32u8] + hex2(mem_addr as u8) + seq![32u8, 61u8, 32u8] + hex2(stored));
    out
}

fn text2_zero_page_y(a: u8, begin: u16, mem_addr: u16, stored: u8, x: u8, y: u8) -> (r: Vec<u8>)
    ensures
        r@ == seq![36u8] + hex2(a) + seq![44u8, 89u8, 32u8, 64u8, 32u8] + hex2(mem_addr as u8) + seq![32u8, 61u8, 32u8] + hex2(stored),
        is_ascii(r@),
{
    let mut out: Vec<u8> = Vec::new();
    push_ascii(&mut out, 36);
    push_hex2(&mut out, a);
    push_ascii(&mut out, 44);
    push_ascii(&mut out, 89);
    push_ascii(&mut out, 32);
    push_ascii(&mut out, 64);
    push_ascii(&mut out, 32);
    push_hex2(&mut out, mem_addr as u8);
    push_ascii(&mut out, 32);
    push_ascii(&mut out, 61);
    push_ascii(&mut out, 32);
    push_hex2(&mut out, stored);
    assert(out@ =~= seq![36u8] + hex2(a) + seq![44u8, 89u8, 32u8, 64u8, 32u8] + hex2(mem_addr as u8) + seq![32u8, 61u8, 32u8] + hex2(stored));
    out
}

fn text2_indirect_x(a: u8, begin: u16, mem_addr: u16, stored: u8, x: u8, y: u8) -> (r: Vec<u8>)
    ensures
        r@ == seq![40u8, 36u8] + hex2(a) + seq![44u8, 88u8, 41u8, 32u8, 64u8, 32u8] + hex2(((a + x) % 256) as u8) + seq![32u8, 61u8, 32u8] + hex4(mem_addr) + seq![32u8, 61u8, 32u8] + hex2(stored),
        is_ascii(r@),
{
    let mut out: Vec<u8> = Vec::new();
    push_ascii(&mut out, 40);
    push_ascii(&mut out, 36);
    push_hex2(&mut out, a);
    push_ascii(&mut out, 44);
    push_ascii(&mut out, 88);
    push_ascii(&mut out, 41);
    push_ascii(&mut out, 32);
    push_ascii(&mut out, 64);
    push_ascii(&mut out, 32);
    let index = a.wrapping_add(x);
    assert(index == ((a + x) % 256) as u8);
    push_hex2(&mut out, index);
    push_ascii(&mut out, 32);
    push_ascii(&mut out, 61);
    push_ascii(&mut out, 32);
    push_hex4(&mut out, mem_addr);
    push_ascii(&mut out, 32);
    push_ascii(&mut out, 61);
    push_ascii(&mut out, 32);
    push_hex2(&mut out, stored);
    assert(out@ =~= seq![40u8, 36u8] + hex2(a) + seq![44u8, 88u8, 41u8, 32u8, 64u8, 32u8] + hex2(((a + x) % 256) as u8) + seq![32u8, 61u8, 32u8] + hex4(mem_addr) + seq![32u8, 61u8, 32u8] + hex2(stored));
    out
}

fn text2_indirect_y(a: u8, begin: u16, mem_addr: u16, stored: u8, x: u8, y: u8) -> (r: Vec<u8>)
    ensures
        r@ == seq![40u8, 36u8] + hex2(a) + seq![41u8, 44u8, 89u8, 32u8, 61u8, 32u8] + hex4(sub16(mem_addr, y as int)) + seq![32u8, 64u8, 32u8] + hex4(mem_addr) + seq![32u8, 61u8, 32u8] + hex2(stored),
        is_ascii(r@),
{
    let mut out: Vec<u8> = Vec::new();
    push_ascii(&mut out, 40);
    push_ascii(&mut out, 36);
    push_hex2(&mut out, a);
    push_ascii(&mut out, 41);
    push_ascii(&mut out, 44);
    push_ascii(&mut out, 89);
    push_ascii(&mut out, 32);
    push_ascii(&mut out, 61);
    push_ascii(&mut out, 32);
    let pointer = mem_addr.wrapping_sub(y as u16);
    assert(pointer == sub16(mem_addr, y as int));
    push_hex4(&mut out, pointer);
    push_ascii(&mut out, 32);
    push_ascii(&mut out, 64);
    push_ascii(&mut out, 32);
    push_hex4(&mut out, mem_addr);
    push_ascii(&mut out, 32);
    push_ascii(&mut out, 61);
    push_ascii(&mut out, 32);
    push_hex2(&mut out, stored);
    assert(out@ =~= seq![40u8, 36u8] + hex2(a) + seq![41u8, 44u8, 89u8, 32u8, 61u8, 32u8] + hex4(sub16(mem_addr, y as int)) + seq![32u8, 64u8, 32u8] + hex4(mem_addr) + seq![32u8, 61u8, 32u8] + hex2(stored));
    out
}

fn text2_implied(a: u8, begin: u16, mem_addr: u16, stored: u8, x: u8, y: u8) -> (r: Vec<u8>)
    ensures
        r@ == seq![36u8] + hex4(add16(add16(begin as int, 2) as int, offset16(a))),
        is_ascii(r@),
{
    let mut out: Vec<u8> = Vec::new();
    let addend: u16 = if a >= 128 { a as u16 + 0xFF00 } else { a as u16 };
    push_ascii(&mut out, 36);
    let target = begin.wrapping_add(2).wrapping_add(addend);
    assert(target == add16(add16(begin as int, 2) as int, offset16(a)));
    push_hex4(&mut out, target);
    assert(out@ =~= seq![36u8] + hex4(add16(add16(begin as int, 2) as int, offset16(a))));
    out
}

/// The operand column of a two-byte instruction.
fn build_operand_text2(mode: Addressing, a: u8, begin: u16, mem_addr: u16, stored: u8, x: u8, y: u8) -> (r: Vec<u8>)
    ensures
        r@ == operand_text2(mode, a, begin, mem_addr, stored, x, y),
        is_ascii(r@),
{
    match mode {
        Addressing::Immediate => text2_immediate(a, begin, mem_addr, stored, x, y),
        Addressing::ZeroPage => text2_zero_page(a, begin, mem_addr, stored, x, y),
        Addressing::ZeroPageX => text2_zero_page_x(a, begin, mem_addr, stored, x, y),
        Addressing::ZeroPageY => text2_zero_page_y(a, begin, mem_addr, stored, x, y),
        Addressing::IndirectX => text2_indirect_x(a, begin, mem_addr, stored, x, y),
        Addressing::IndirectY => text2_indirect_y(a, begin, mem_addr, stored, x, y),
        Addressing::Implied => text2_implied(a, begin, mem_addr, stored, x, y),
        _ => {
            let out: Vec<u8> = Vec::new();
            assert(out@ =~= Seq::<u8>::empty());
            out
        },
    }
}

/// The operand column of a three-byte instruction other than JMP indirect.
fn build_operand_text3(mode: Addressing, address: u16, mem_addr: u16, stored: u8) -> (r: Vec<u8>)
    ensures
        r@ == operand_text3(mode, address, mem_addr, stored),
        is_ascii(r@),
{
    let mut out: Vec<u8> = Vec::new();
    match mode {
        Addressing::Implied => {
            push_ascii(&mut out, 36);
            push_hex4(&mut out, address);
            assert(out@ =~= operand_text3(mode, address, mem_addr, stored));
        },
        Addressing::Absolute => {
            push_ascii(&mut out, 36);
            push_hex4(&mut out, mem_addr);
            push_ascii(&mut out, 32);
            push_ascii(&mut out, 61);
            push_ascii(&mut out, 32);
            push_hex2(&mut out, stored);
            assert(out@ =~= operand_text3(mode, address, mem_addr, stored));
        },
        Addressing::AbsoluteX => {
            push_ascii(&mut out, 36);
            push_hex4(&mut out, address);
            push_ascii(&mut out, 44);
            push_ascii(&mut out, 88);
            push_ascii(&mut out, 32);
            push_ascii(&mut out, 64);
            push_ascii(&mut out, 32);
            push_hex4(&mut out, mem_addr);
            push_ascii(&mut out, 32);
            push_ascii(&mut out, 61);
            push_ascii(&mut out, 32);
            push_hex2(&mut out, stored);
            assert(out@ =~= operand_text3(mode, address, mem_addr, stored));
        },
        Addressing::AbsoluteY => {
            push_ascii(&mut out, 36);
            push_hex4(&mut out, address);
            push_ascii(&mut out, 44);
            push_ascii(&mut out, 89);
            push_ascii(&mut out, 32);
            push_ascii(&mut out, 64);
            push_ascii(&mut out, 32);
            push_hex4(&mut out, mem_addr);
            push_ascii(&mut out, 32);
            push_ascii(&mut out, 61);
            push_ascii(&mut out, 32);
            push_hex2(&mut out, stored);
            assert(out@ =~= operand_text3(mode, address, mem_addr, stored));
        },
        _ => {
            assert(out@ =~= operand_text3(mode, address, mem_addr, stored));
        },
    }
    out
}

/// The operand column of JMP indirect: the pointer and the target it yields.
fn jmp_text(address: u16, target: u16) -> (r: Vec<u8>)
    ensures
        r@ == seq![40u8, 36u8] + hex4(address) + seq![41u8, 32u8, 61u8, 32u8] + hex4(target),
        is_ascii(r@),
{
    let mut out: Vec<u8> = Vec::new();
    push_ascii(&mut out, 40);
    push_ascii(&mut out, 36);
    push_hex4(&mut out, address);
    push_ascii(&mut out, 41);
    push_ascii(&mut out, 32);
    push_ascii(&mut out, 61);
    push_ascii(&mut out, 32);
    push_hex4(&mut out, target);
    assert(out@ =~= seq![40u8, 36u8] + hex4(address) + seq![41u8, 32u8, 61u8, 32u8] + hex4(target));
    out
}

/// Reads the operand's address and value for the disassembly.
fn read_trace_operand(cpu: &mut CPU, mode: Addressing, begin: u16) -> (r: (u16, u8))
    requires
        old(cpu).wf(),
    ensures
        final(cpu).wf(),
        (final(cpu)@, r.0, r.1) == trace_operand(old(cpu)@, mode, begin),
        final(cpu)@ == (CpuState { bus: final(cpu)@.bus, ..old(cpu)@ }),
{
    match mode {
        Addressing::Immediate | Addressing::Implied => (0, 0),
        _ => {
            let (addr, _) = cpu.get_param_address(&mode, begin.wrapping_add(1));
            (addr, cpu.read(addr))
        },
    }
}

/// Reads the instruction's operand bytes and builds its operand column.
fn read_operand_columns(cpu: &mut CPU, ins: &Instruction, begin: u16, mem_addr: u16, stored: u8) -> (r: (
    Vec<u8>,
    Vec<u8>,
))
    requires
        old(cpu).wf(),
    ensures
        final(cpu).wf(),
        (final(cpu)@, r.0@, r.1@) == operand_columns(old(cpu)@, *ins, begin, mem_addr, stored),
        final(cpu)@ == (CpuState { bus: final(cpu)@.bus, ..old(cpu)@ }),
        r.0@.len() <= 2,
        is_ascii(r.1@),
{
    let mut tail: Vec<u8> = Vec::new();
    if ins.bytes == 1 {
        let mut text: Vec<u8> = Vec::new();
        if ins.address == 0x0a || ins.address == 0x4a || ins.address == 0x2a || ins.address == 0x6a {
            push_ascii(&mut text, 65);
            push_ascii(&mut text, 32);
            assert(text@ =~= seq![65u8, 32u8]);
        } else {
            assert(text@ =~= Seq::<u8>::empty());
        }
        assert(tail@ =~= Seq::<u8>::empty());
        (tail, text)
    } else if ins.bytes == 2 {
        let x = cpu.x.value();
        let y = cpu.y.value();
        let a = cpu.read(begin.wrapping_add(1));
        tail.push(a);
        assert(tail@ =~= seq![a]);
        (tail, build_operand_text2(ins.mode, a, begin, mem_addr, stored, x, y))
    } else if ins.bytes == 3 {
        let lo = cpu.read(begin.wrapping_add(1));
        let hi = cpu.read(begin.wrapping_add(2));
        tail.push(lo);
        tail.push(hi);
        assert(tail@ =~= seq![lo, hi]);
        let address = cpu.read_u16(begin.wrapping_add(1));
        if ins.address == 0x6c && ins.mode == Addressing::Implied {
            let target = if CPU::is_page_boundary(address) {
                cpu.read_indirect_address(address)
            } else {
                cpu.read_u16(address)
            };
            (tail, jmp_text(address, target))
        } else {
            (tail, build_operand_text3(ins.mode, address, mem_addr, stored))
        }
    } else {
        let text: Vec<u8> = Vec::new();
        assert(text@ =~= Seq::<u8>::empty());
        assert(tail@ =~= Seq::<u8>::empty());
        (tail, text)
    }
}

/// Appends ASCII bytes to `dst`.
fn push_all(dst: &mut Vec<u8>, src: &Vec<u8>)
    requires
        is_ascii(src@),
    ensures
        final(dst)@ == old(dst)@ + src@,
        is_ascii(old(dst)@) ==> is_ascii(final(dst)@),
{
    extend(dst, src);
}

/// The disassembly part of a line, before trimming.
fn build_asm_text(begin: u16, dump: &Vec<u8>, name: &Vec<u8>, text: &Vec<u8>) -> (r: Vec<u8>)
    requires
        dump@.len() <= 3,
        is_ascii(name@),
        is_ascii(text@),
    ensures
        r@ == asm_text(begin, dump@, name@, text@),
        is_ascii(r@),
{
    let mut line: Vec<u8> = Vec::new();
    push_hex4(&mut line, begin);
    push_ascii(&mut line, 32);
    push_ascii(&mut line, 32);
    let mut i: usize = 0;
    while i < 3
        invariant
            i <= 3,
            dump@.len() <= 3,
            is_ascii(line@),
            line@ == hex4(begin) + seq![32u8, 32] + (if i >= 1 { dump_column(dump@, 0) } else { Seq::empty() })
                + (if i >= 2 { dump_column(dump@, 1) } else { Seq::empty() }) + (if i >= 3 {
                dump_column(dump@, 2)
            } else {
                Seq::empty()
            }),
        decreases 3 - i,
    {
        let ghost before = line@;
        if i < dump.len() {
            push_hex2(&mut line, dump[i]);
        } else {
            push_ascii(&mut line, 32);
            push_ascii(&mut line, 32);
        }
        push_ascii(&mut line, 32);
        assert(line@ =~= before + dump_column(dump@, i as int));
        i = i + 1;
        assert(line@ =~= hex4(begin) + seq![32u8, 32] + (if i >= 1 { dump_column(dump@, 0) } else { Seq::empty() })
            + (if i >= 2 { dump_column(dump@, 1) } else { Seq::empty() }) + (if i >= 3 {
            dump_column(dump@, 2)
        } else {
            Seq::empty()
        }));
    }
    push_ascii(&mut line, 32);
    push_all(&mut line, name);
    push_ascii(&mut line, 32);
    push_all(&mut line, text);
    assert(line@ =~= asm_text(begin, dump@, name@, text@));
    line
}

/// Drops trailing spaces, then pads with spaces to 47 bytes.
fn trim_and_pad(line: &mut Vec<u8>)
    requires
        is_ascii(old(line)@),
    ensures
        final(line)@ == pad47(trim_spaces(old(line)@)),
        is_ascii(final(line)@),
{
    while line.len() > 0 && line[line.len() - 1] == 32
        invariant
            trim_spaces(line@) == trim_spaces(old(line)@),
            is_ascii(line@),
        decreases line@.len(),
    {
        let ghost before = line@;
        line.pop();
        assert(line@ =~= before.drop_last());
    }
    let ghost t = line@;
    assert(trim_spaces(t) == t);
    while line.len() < 47
        invariant
            line@.len() >= t.len(),
            t.len() < 47 ==> line@.len() <= 47,
            t.len() >= 47 ==> line@.len() == t.len(),
            line@ == t + Seq::new((line@.len() - t.len()) as nat, |i: int| 32u8),
            is_ascii(line@),
        decreases 47 - line@.len(),
    {
        push_ascii(line, 32);
        assert(line@ =~= t + Seq::new((line@.len() - t.len()) as nat, |i: int| 32u8));
    }
    proof {
        if t.len() >= 47 {
            assert(line@ =~= t);
        }
    }
    assert(line@ =~= pad47(t));
}

/// Appends the register columns.
fn push_registers(line: &mut Vec<u8>, cpu: &CPU)
    ensures
        final(line)@ == old(line)@ + registers_text(cpu@),
        is_ascii(old(line)@) ==> is_ascii(final(line)@),
{
    let ghost start = line@;
    push_ascii(line, 32);
    push_ascii(line, 65);
    push_ascii(line, 58);
    push_hex2(line, cpu.a.value());
    push_ascii(line, 32);
    push_ascii(line, 88);
    push_ascii(line, 58);
    push_hex2(line, cpu.x.value());
    push_ascii(line, 32);
    push_ascii(line, 89);
    push_ascii(line, 58);
    push_hex2(line, cpu.y.value());
    push_ascii(line, 32);
    push_ascii(line, 80);
    push_ascii(line, 58);
    push_hex2(line, cpu.status.value);
    push_ascii(line, 32);
    push_ascii(line, 83);
    push_ascii(line, 80);
    push_ascii(line, 58);
    push_hex2(line, cpu.stack_pointer);
    assert(line@ =~= start + registers_text(cpu@));
}

/// A whole trace line from its parts.
fn build_line(begin: u16, dump: &Vec<u8>, name: &Vec<u8>, text: &Vec<u8>, cpu: &CPU) -> (r: Vec<u8>)
    requires
        dump@.len() <= 3,
        is_ascii(name@),
        is_ascii(text@),
    ensures
        r@ == format_line(begin, dump@, name@, text@, registers_text(cpu@)),
        is_ascii(r@),
{
    reveal(format_line);
    let mut line = build_asm_text(begin, dump, name, text);
    trim_and_pad(&mut line);
    push_registers(&mut line, cpu);
    line
}

/// One line of an execution log for the instruction at PC, in the layout of the
/// well-known nestest log: address, instruction bytes, disassembly with the operand's
/// address and value, then the registers before the instruction runs. Reads go through
/// the bus, so reading a register with side effects has them.
pub fn trace(cpu: &mut CPU) -> (r: String)
    requires
        old(cpu).wf(),
    ensures
        final(cpu).wf(),
        final(cpu)@ == trace_line(old(cpu)@).0,
        final(cpu)@ == (CpuState { bus: final(cpu)@.bus, ..old(cpu)@ }),
        r@ == ascii(trace_line(old(cpu)@).1),
{
    let begin = cpu.prog_counter;
    let code = cpu.read(begin);
    let mut dump: Vec<u8> = Vec::new();
    dump.push(code);
    let (name, text) = match decode(code) {
        Some(ins) => {
            let (mem_addr, stored) = read_trace_operand(cpu, ins.mode, begin);
            let (tail, text) = read_operand_columns(cpu, &ins, begin, mem_addr, stored);
            extend(&mut dump, &tail);
            (mnemonic(ins.name), text)
        },
        None => {
            let text: Vec<u8> = Vec::new();
            assert(text@ =~= Seq::<u8>::empty());
            (three(63, 63, 63), text)
        },
    };
    let line = build_line(begin, &dump, &name, &text, cpu);
    ascii_string(line)
}

/// The parts of an iNES image.
struct TestRom {
    header: Vec<u8>,
    trainer: Option<Vec<u8>>,
    pgp_rom: Vec<u8>,
    chr_rom: Vec<u8>,
}

/// Appends `src` to `dst`.
fn extend(dst: &mut Vec<u8>, src: &Vec<u8>)
    ensures
        final(dst)@ == old(dst)@ + src@,
{
    let mut i: usize = 0;
    while i < src.len()
        invariant
            i <= src@.len(),
            dst@ == old(dst)@ + src@.subrange(0, i as int),
        decreases src@.len() - i,
    {
        dst.push(src[i]);
        i = i + 1;
        assert(dst@ =~= old(dst)@ + src@.subrange(0, i as int));
    }
    assert(src@.subrange(0, src@.len() as int) =~= src@);
}

/// The image: header, trainer if any, PRG ROM, CHR ROM.
fn create_rom(rom: TestRom) -> (r: Vec<u8>)
    ensures
        r@ == rom.header@ + (match rom.trainer {
            Some(t) => t@,
            None => Seq::empty(),
        }) + rom.pgp_rom@ + rom.chr_rom@,
{
    let mut result: Vec<u8> = Vec::new();
    extend(&mut result, &rom.header);
    match &rom.trainer {
        Some(t) => extend(&mut result, t),
        None => {},
    }
    extend(&mut result, &rom.pgp_rom);
    extend(&mut result, &rom.chr_rom);
    proof {
        match rom.trainer {
            Some(t) => {},
            None => {
                assert(rom.header@ + Seq::<u8>::empty() =~= rom.header@);
            },
        }
    }
    result
}

/// A cartridge for tests: two PRG banks of 1s, one CHR bank of 2s, vertical mirroring.
pub fn test_rom() -> (r: Cartridge)
    ensures
        r.prg_rom@ == Seq::new(0x8000, |i: int| 1u8),
        r.chr_rom@ == Seq::new(0x2000, |i: int| 2u8),
        r.mirroring == Mirroring::Vertical,
{
    let header: Vec<u8> = vec![0x4E, 0x45, 0x53, 0x1A, 0x02, 0x01, 0x31, 0, 0, 0, 0, 0, 0, 0, 0, 0];
    let pgp_rom = vec![1u8; 0x8000];
    let chr_rom = vec![2u8; 0x2000];
    let data = create_rom(TestRom { header, trainer: None, pgp_rom, chr_rom });
    proof {
        assert(data@.len() == 16 + 0x8000 + 0x2000);
        assert(data@[0] == 0x4E && data@[1] == 0x45 && data@[2] == 0x53 && data@[3] == 0x1A);
        assert(data@[4] == 2 && data@[5] == 1 && data@[6] == 0x31 && data@[7] == 0);
        assert((0u8 >> 2u8) & 3u8 == 0 && 0x31u8 & 8u8 == 0 && 0x31u8 & 4u8 == 0 && 0x31u8 & 1u8 != 0)
            by (bit_vector);
        assert(rom_error(data@) is None);
        assert(data@.subrange(16int, 16int + 0x8000) =~= Seq::new(0x8000, |i: int| 1u8));
        assert(data@.subrange(16int + 0x8000, 16int + 0x8000 + 0x2000) =~= Seq::new(0x2000, |i: int| 2u8));
    }
    match Cartridge::new(data) {
        Ok(c) => c,
        Err(_) => {
            proof {
                assert(false);
            }
            Cartridge { prg_rom: Vec::new(), chr_rom: Vec::new(), mapper: 0, mirroring: Mirroring::Vertical }
        },
    }
}

} // verus!
