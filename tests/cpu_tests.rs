use rust_byte::byte_status::ByteStatus;
use rust_byte::cpu::bus::Bus;
use rust_byte::cpu::cpu::{StepOutcome, CPU};
use rust_byte::flags::Status;
use rust_byte::trace::test_rom;

fn new_cpu() -> CPU {
    CPU::new(Bus::new(test_rom()))
}

#[test]
fn test_0xa9_lda_load() {
    let mut cpu = new_cpu();
    cpu.load_program(vec![0xa9, 0x05, 0x00]).expect("Failed to load program");
    cpu.interpret();

    assert_eq!(cpu.a.value(), 0x05);
    assert!(!cpu.status.is_set(Status::Zero.as_u8()));
    assert!(!cpu.status.is_set(Status::Negative.as_u8()));
}

#[test]
fn test_0xa9_lda_zero_flag() {
    let mut cpu = new_cpu();
    cpu.load_program(vec![0xa9, 0x00, 0x00]).expect("Failed to load program");
    cpu.interpret();

    assert_eq!(cpu.a.value(), 0);
    assert!(cpu.status.is_set(Status::Zero.as_u8()));
    assert!(!cpu.status.is_set(Status::Negative.as_u8()));
}

#[test]
fn test_0xaa_tax() {
    let mut cpu = new_cpu();
    cpu.load_program(vec![0xaa, 0x00]).expect("Failed to load program");
    cpu.a.set(69);
    cpu.interpret();

    assert_eq!(cpu.x.value(), 69);
    assert!(!cpu.status.is_set(Status::Zero.as_u8()));
    assert!(!cpu.status.is_set(Status::Negative.as_u8()));
}

#[test]
fn test_increase() {
    let mut cpu = new_cpu();
    cpu.load_program(vec![0xc8, 0xe8, 0x00]).expect("Failed to load program");
    cpu.x.set(19);
    cpu.y.set(29);
    cpu.interpret();

    assert_eq!(cpu.x.value(), 20);
    assert_eq!(cpu.y.value(), 30);
}

#[test]
fn test_increase_wrap_zero() {
    let mut cpu = new_cpu();
    cpu.load_program(vec![0xc8, 0xc8, 0x00]).expect("Failed to load program");
    cpu.y.set(0xfe);
    cpu.interpret();

    assert_eq!(cpu.y.value(), 0);
    assert!(cpu.status.is_set(Status::Zero.as_u8()));
    assert!(!cpu.status.is_set(Status::Negative.as_u8()));
}

#[test]
fn test_decrease() {
    let mut cpu = new_cpu();
    cpu.load_program(vec![0xca, 0x88, 0x00]).expect("Failed to load program");
    cpu.x.set(21);
    cpu.y.set(31);
    cpu.interpret();

    assert_eq!(cpu.x.value(), 20);
    assert_eq!(cpu.y.value(), 30);
}

#[test]
fn test_decrease_wrap_zero() {
    let mut cpu = new_cpu();
    cpu.load_program(vec![0x88, 0x88, 0x00]).expect("Failed to load program");
    cpu.y.set(2);
    cpu.interpret();

    assert_eq!(cpu.y.value(), 0);
    assert!(cpu.status.is_set(Status::Zero.as_u8()));
    assert!(!cpu.status.is_set(Status::Negative.as_u8()));
}

#[test]
fn test_clear_functions() {
    let mut cpu = new_cpu();
    cpu.load_program(vec![0x18, 0xd8, 0x58, 0xb8, 0x00]).expect("Failed to load program");
    cpu.status.add(Status::Carry.as_u8());
    cpu.status.add(Status::Decimal.as_u8());
    cpu.status.add(Status::InterruptDisable.as_u8());
    cpu.status.add(Status::Overflow.as_u8());
    cpu.interpret();

    assert!(!cpu.status.is_set(Status::Carry.as_u8()));
    assert!(!cpu.status.is_set(Status::Decimal.as_u8()));
    assert!(!cpu.status.is_set(Status::InterruptDisable.as_u8()));
    assert!(!cpu.status.is_set(Status::Overflow.as_u8()));
}

#[test]
fn test_set_functions() {
    let mut cpu = new_cpu();
    cpu.load_program(vec![0x38, 0xf8, 0x78, 0x00]).expect("Failed to load program");
    cpu.interpret();

    assert!(cpu.status.is_set(Status::Carry.as_u8()));
    assert!(cpu.status.is_set(Status::Decimal.as_u8()));
    assert!(cpu.status.is_set(Status::InterruptDisable.as_u8()));
}

#[test]
fn test_lda_from_memory() {
    let mut cpu = new_cpu();
    cpu.load_program(vec![0xa5, 0x10, 0x00]).expect("Failed to load program");
    cpu.write(0x10, 0x55).expect("RAM takes writes");
    cpu.interpret();

    assert_eq!(cpu.a.value(), 0x55);
}

#[test]
fn inx_wraps_to_zero() {
    let mut cpu = new_cpu();
    cpu.load_program(vec![0xe8, 0xe8, 0x00]).unwrap();
    cpu.x.set(0xfe);
    cpu.interpret();
    assert_eq!(cpu.x.value(), 0);
    assert!(cpu.status.is_set(Status::Zero.as_u8()));
}

#[test]
fn adc_sets_overflow_and_negative() {
    let mut cpu = new_cpu();
    cpu.load_program(vec![0xa9, 0x50, 0x69, 0x50, 0x00]).unwrap();
    cpu.interpret();
    assert_eq!(cpu.a.value(), 0xa0);
    assert!(cpu.status.is_set(Status::Overflow.as_u8()));
    assert!(cpu.status.is_set(Status::Negative.as_u8()));
    assert!(!cpu.status.is_set(Status::Carry.as_u8()));
}

#[test]
fn adc_sets_carry_on_wrap() {
    let mut cpu = new_cpu();
    cpu.load_program(vec![0xa9, 0xff, 0x69, 0x02, 0x00]).unwrap();
    cpu.interpret();
    assert_eq!(cpu.a.value(), 0x01);
    assert!(cpu.status.is_set(Status::Carry.as_u8()));
    assert!(!cpu.status.is_set(Status::Overflow.as_u8()));
}

#[test]
fn sbc_subtracts_with_carry_set() {
    let mut cpu = new_cpu();
    cpu.load_program(vec![0x38, 0xa9, 0x05, 0xe9, 0x03, 0x00]).unwrap();
    cpu.interpret();
    assert_eq!(cpu.a.value(), 0x02);
    assert!(cpu.status.is_set(Status::Carry.as_u8()));
}

#[test]
fn compare_sets_carry_and_zero() {
    let mut cpu = new_cpu();
    cpu.load_program(vec![0xa9, 0x40, 0xc9, 0x40, 0x00]).unwrap();
    cpu.interpret();
    assert!(cpu.status.is_set(Status::Carry.as_u8()));
    assert!(cpu.status.is_set(Status::Zero.as_u8()));
}

#[test]
fn asl_accumulator_shifts_into_carry() {
    let mut cpu = new_cpu();
    cpu.load_program(vec![0xa9, 0x81, 0x0a, 0x00]).unwrap();
    cpu.interpret();
    assert_eq!(cpu.a.value(), 0x02);
    assert!(cpu.status.is_set(Status::Carry.as_u8()));
}

#[test]
fn ror_memory_rotates_carry_in() {
    let mut cpu = new_cpu();
    cpu.load_program(vec![0x38, 0x66, 0x20, 0x00]).unwrap();
    cpu.write(0x20, 0x02).unwrap();
    cpu.interpret();
    assert_eq!(cpu.read(0x20), 0x81);
    assert!(!cpu.status.is_set(Status::Carry.as_u8()));
}

#[test]
fn branch_loop_counts_down() {
    let mut cpu = new_cpu();
    cpu.load_program(vec![0xa2, 0x03, 0xca, 0xd0, 0xfd, 0x00]).unwrap();
    cpu.interpret();
    assert_eq!(cpu.x.value(), 0);
    assert!(cpu.status.is_set(Status::Zero.as_u8()));
}

#[test]
fn jsr_and_rts_return_after_call() {
    let mut cpu = new_cpu();
    cpu.load_program(vec![0x20, 0x04, 0x80, 0x00, 0xa9, 0x07, 0x60]).unwrap();
    cpu.interpret();
    assert_eq!(cpu.a.value(), 7);
    assert_eq!(cpu.stack_pointer, 0xfd);
    assert_eq!(cpu.prog_counter, 0x8004);
}

#[test]
fn jmp_indirect_takes_high_byte_from_same_page() {
    let mut cpu = new_cpu();
    cpu.load_program(vec![0x6c, 0xff, 0x02]).unwrap();
    cpu.write(0x02ff, 0x34).unwrap();
    cpu.write(0x0200, 0x12).unwrap();
    cpu.write(0x0300, 0x56).unwrap();
    cpu.interpret();
    assert_eq!(cpu.prog_counter, 0x1235);
}

#[test]
fn php_then_plp_normalises_break_bits() {
    let mut cpu = new_cpu();
    cpu.load_program(vec![0x08, 0x28, 0x00]).unwrap();
    cpu.status.set_bits(0xd3);
    cpu.interpret();
    assert_eq!(cpu.status.value, 0xe3);
    assert_eq!(cpu.stack_pointer, 0xfd);
}

#[test]
fn plp_sets_break2_from_zero_byte() {
    let mut cpu = new_cpu();
    cpu.load_program(vec![0xa9, 0x00, 0x48, 0x28, 0x00]).unwrap();
    cpu.interpret();
    assert_eq!(cpu.status.value, 0x20);
}

#[test]
fn rti_restores_status_and_pc() {
    let mut cpu = new_cpu();
    cpu.load_program(vec![0x40]).unwrap();
    cpu.stack_push_u16(0x1234);
    cpu.stack_push(0xd3);
    cpu.step();
    assert_eq!(cpu.status.value, 0xe3);
    assert_eq!(cpu.prog_counter, 0x1234);
}

#[test]
fn reset_loads_vector_and_status() {
    let mut cpu = new_cpu();
    cpu.load_program(vec![0x00]).unwrap();
    assert_eq!(cpu.prog_counter, 0x8000);
    assert_eq!(cpu.status.value, 0x24);
    assert_eq!(cpu.stack_pointer, 0xfd);
}

#[test]
fn stack_push_wraps_below_zero() {
    let mut cpu = new_cpu();
    cpu.stack_pointer = 0;
    cpu.stack_push(0x42);
    assert_eq!(cpu.stack_pointer, 0xff);
    assert_eq!(cpu.read(0x0100), 0x42);
    assert_eq!(cpu.stack_pop(), 0x42);
    assert_eq!(cpu.stack_pointer, 0);
}

#[test]
fn unknown_opcode_stops_the_interpreter() {
    let mut cpu = new_cpu();
    cpu.load_program(vec![0x02]).unwrap();
    assert_eq!(cpu.run(100), StepOutcome::UnrecognizedOpcode(0x02));
}

#[test]
fn run_stops_after_its_step_budget() {
    let mut cpu = new_cpu();
    cpu.load_program(vec![0x4c, 0x00, 0x80]).unwrap();
    assert_eq!(cpu.run(10), StepOutcome::Continue);
    assert_eq!(cpu.prog_counter, 0x8000);
}

#[test]
fn brk_ends_the_program() {
    let mut cpu = new_cpu();
    cpu.load_program(vec![0xea, 0x00]).unwrap();
    assert_eq!(cpu.step(), StepOutcome::Continue);
    assert_eq!(cpu.step(), StepOutcome::Break);
}

#[test]
fn program_too_large_is_refused() {
    let mut cpu = new_cpu();
    assert!(cpu.load_program(vec![0xea; 0x7ffb]).is_err());
    assert!(cpu.load_program(vec![0xea; 0x7ffa]).is_ok());
}

#[test]
fn indirect_y_reads_through_zero_page_pointer() {
    let mut cpu = new_cpu();
    cpu.load_program(vec![0xb1, 0x33, 0x00]).unwrap();
    cpu.write(0x33, 0x00).unwrap();
    cpu.write(0x34, 0x04).unwrap();
    cpu.write(0x0405, 0xaa).unwrap();
    cpu.y.set(5);
    cpu.interpret();
    assert_eq!(cpu.a.value(), 0xaa);
}

#[test]
fn nmi_is_serviced_before_the_next_instruction() {
    let mut cpu = new_cpu();
    cpu.load_program(vec![0xea, 0x00]).unwrap();
    cpu.bus.ppu.nmi = true;
    let pc = cpu.prog_counter;
    cpu.step();
    assert!(!cpu.bus.ppu.nmi);
    assert_eq!(cpu.stack_pointer, 0xfa);
    assert!(cpu.status.is_set(Status::InterruptDisable.as_u8()));
    assert_eq!(cpu.read(0x01fd), (pc >> 8) as u8);
    assert_eq!(cpu.read(0x01fc), (pc & 0xff) as u8);
    assert_eq!(cpu.read(0x01fb), 0x24);
}
