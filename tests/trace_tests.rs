use rust_byte::cpu::bus::Bus;
use rust_byte::cpu::cpu::{StepOutcome, CPU};
use rust_byte::trace::{test_rom, trace};

fn run_traced(cpu: &mut CPU) -> Vec<String> {
    let mut result: Vec<String> = vec![];
    loop {
        result.push(trace(cpu));
        if cpu.step() != StepOutcome::Continue {
            break;
        }
    }
    result
}

#[test]
fn test_format_trace() {
    let mut bus = Bus::new(test_rom());
    bus.write(100, 0xa2).unwrap();
    bus.write(101, 0x01).unwrap();
    bus.write(102, 0xca).unwrap();
    bus.write(103, 0x88).unwrap();
    bus.write(104, 0x00).unwrap();

    let mut cpu = CPU::new(bus);
    cpu.prog_counter = 0x64;
    cpu.a.set(1);
    cpu.x.set(2);
    cpu.y.set(3);
    let result = run_traced(&mut cpu);

    assert_eq!(
        "0064  A2 01     LDX #$01                        A:01 X:02 Y:03 P:24 SP:FD",
        result[0]
    );
    assert_eq!(
        "0066  CA        DEX                             A:01 X:01 Y:03 P:24 SP:FD",
        result[1]
    );
    assert_eq!(
        "0067  88        DEY                             A:01 X:00 Y:03 P:26 SP:FD",
        result[2]
    );
}

#[test]
fn test_format_mem_access() {
    let mut bus = Bus::new(test_rom());
    // ORA ($33), Y
    bus.write(100, 0x11).unwrap();
    bus.write(101, 0x33).unwrap();

    //data
    bus.write(0x33, 00).unwrap();
    bus.write(0x34, 04).unwrap();

    //target cell
    bus.write(0x400, 0xAA).unwrap();

    let mut cpu = CPU::new(bus);
    cpu.prog_counter = 0x64;
    cpu.y.set(0);
    let result = run_traced(&mut cpu);
    assert_eq!(
        "0064  11 33     ORA ($33),Y = 0400 @ 0400 = AA  A:00 X:00 Y:00 P:24 SP:FD",
        result[0]
    );
}

#[test]
fn trace_formats_absolute_x_and_accumulator() {
    let mut bus = Bus::new(test_rom());
    bus.write(0x10, 0xbd).unwrap();
    bus.write(0x11, 0x00).unwrap();
    bus.write(0x12, 0x02).unwrap();
    bus.write(0x0205, 0x77).unwrap();
    let mut cpu = CPU::new(bus);
    cpu.prog_counter = 0x10;
    cpu.x.set(5);
    assert_eq!(
        "0010  BD 00 02  LDA $0200,X @ 0205 = 77         A:00 X:05 Y:00 P:24 SP:FD",
        trace(&mut cpu)
    );
    cpu.write(0x10, 0x0a).unwrap();
    assert_eq!(
        "0010  0A        ASL A                           A:00 X:05 Y:00 P:24 SP:FD",
        trace(&mut cpu)
    );
}

#[test]
fn trace_indirect_y_shows_pointer_as_address_minus_y() {
    let mut bus = Bus::new(test_rom());
    bus.write(100, 0x11).unwrap();
    bus.write(101, 0x33).unwrap();
    bus.write(0x33, 0x00).unwrap();
    bus.write(0x34, 0x04).unwrap();
    bus.write(0x405, 0x5A).unwrap();
    let mut cpu = CPU::new(bus);
    cpu.prog_counter = 0x64;
    cpu.y.set(5);
    assert_eq!(
        "0064  11 33     ORA ($33),Y = 0400 @ 0405 = 5A  A:00 X:00 Y:05 P:24 SP:FD",
        trace(&mut cpu)
    );
}

#[test]
fn trace_jmp_indirect_and_unknown_opcode() {
    let mut bus = Bus::new(test_rom());
    bus.write(0x10, 0x6c).unwrap();
    bus.write(0x11, 0xff).unwrap();
    bus.write(0x12, 0x02).unwrap();
    bus.write(0x02ff, 0x34).unwrap();
    bus.write(0x0200, 0x12).unwrap();
    bus.write(0x20, 0x02).unwrap();
    let mut cpu = CPU::new(bus);
    cpu.prog_counter = 0x10;
    assert_eq!(
        "0010  6C FF 02  JMP ($02FF) = 1234              A:00 X:00 Y:00 P:24 SP:FD",
        trace(&mut cpu)
    );
    cpu.prog_counter = 0x20;
    assert_eq!(
        "0020  02        ???                             A:00 X:00 Y:00 P:24 SP:FD",
        trace(&mut cpu)
    );
}
