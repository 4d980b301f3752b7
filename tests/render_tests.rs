use rust_byte::cpu::cpu_stack::CPUStack;
use rust_byte::cpu::cpu_status::CPUStatus;
use rust_byte::cpu::memory::Memory;
use rust_byte::cpu::register::Register;
use rust_byte::ppu::ppu::PPU;
use rust_byte::render::frame::Frame;
use rust_byte::render::palette::system_color;
use rust_byte::render::renderer::Renderer;

#[test]
fn frame_set_pixel_in_and_out_of_range() {
    let mut frame = Frame::new();
    assert_eq!(frame.data.len(), 256 * 240 * 3);
    frame.set_pixel(1, 0, (1, 2, 3));
    assert_eq!(&frame.data[3..6], &[1, 2, 3]);
    frame.set_pixel(0, 240, (9, 9, 9));
    assert!(frame.data.iter().filter(|&&b| b == 9).count() == 0);
}

#[test]
fn master_palette_uses_six_bits() {
    assert_eq!(system_color(0x30), (0xFF, 0xFF, 0xFF));
    assert_eq!(system_color(0x00), (0x80, 0x80, 0x80));
    assert_eq!(system_color(0x40), system_color(0x00));
    assert_eq!(system_color(0x16), (0xFF, 0x22, 0x00));
}

#[test]
fn render_blank_screen_uses_universal_colour() {
    let mut ppu = PPU::new_empty_rom();
    ppu.palette[0] = 0x30;
    let mut frame = Frame::new();
    Renderer::render(&ppu, &mut frame);
    assert!(frame.data.iter().all(|&b| b == 0xFF));
}

#[test]
fn render_draws_a_sprite_over_background() {
    let mut chr = vec![0u8; 0x2000];
    for row in 0..8 {
        chr[16 + row] = 0xFF;
    }
    let mut ppu = PPU::new(chr, rust_byte::cpu::mirroring::Mirroring::Horizontal);
    ppu.palette[0] = 0x0F;
    ppu.palette[0x11] = 0x30;
    ppu.oam[0] = 10;
    ppu.oam[1] = 1;
    ppu.oam[2] = 0;
    ppu.oam[3] = 20;
    let mut frame = Frame::new();
    Renderer::render(&ppu, &mut frame);
    let at = |x: usize, y: usize| (frame.data[(y * 256 + x) * 3], frame.data[(y * 256 + x) * 3 + 1]);
    assert_eq!(at(20, 10), (0xFF, 0xFF));
    assert_eq!(at(27, 17), (0xFF, 0xFF));
    assert_eq!(at(28, 10), (0x05, 0x05));
}

#[test]
fn memory_load_sets_reset_vector() {
    let mut mem = Memory::new();
    mem.load(vec![0xa9, 0x05]).unwrap();
    assert_eq!(mem.read(0x8000), 0xa9);
    assert_eq!(mem.read_u16(0xFFFC), 0x8000);
    mem.write_u16(0x10, 0xBEEF);
    assert_eq!(mem.read(0x10), 0xEF);
    assert!(mem.load(vec![0; 0x8000]).is_err());
}

#[test]
fn cpu_stack_round_trip() {
    let mut stack = CPUStack::new();
    stack.push_u16(0x1234);
    stack.push(0x56);
    assert_eq!(stack.peek(), 0);
    assert_eq!(stack.pop(), 0x56);
    assert_eq!(stack.pop_u16(), 0x1234);
    assert_eq!(stack.pointer, 0xFD);
    stack.pointer = 0;
    stack.push(1);
    assert_eq!(stack.pointer, 0xFF);
    stack.reset();
    assert_eq!(stack.pointer, 0xFD);
}

#[test]
fn register_wraps() {
    let mut r = Register::new();
    r.subtract(1);
    assert_eq!(r.value(), 0xFF);
    r.add(2);
    assert_eq!(r.value(), 1);
    r.reset();
    assert_eq!(r.value(), 0);
}

#[test]
fn cpu_status_set_and_clear() {
    let mut s = CPUStatus::new();
    assert_eq!(s.value, 0x24);
    s.set(0x01, true);
    assert_eq!(s.value, 0x25);
    s.set(0x04, false);
    assert_eq!(s.value, 0x21);
}

#[test]
fn render_background_scrolls_into_neighbour_table() {
    let mut chr = vec![0u8; 0x2000];
    for row in 0..8 {
        chr[16 + row] = 0xFF;
    }
    let mut ppu = PPU::new(chr, rust_byte::cpu::mirroring::Mirroring::Horizontal);
    ppu.palette[0] = 0x0F;
    ppu.palette[1] = 0x30;
    ppu.ram[1] = 1;
    ppu.controller_register.value = 0;
    ppu.write_scroll_register(8);
    ppu.write_scroll_register(0);
    let mut frame = Frame::new();
    Renderer::render_background(&ppu, &mut frame);
    let at = |x: usize, y: usize| frame.data[(y * 256 + x) * 3];
    assert_eq!(at(0, 0), 0xFF);
    assert_eq!(at(7, 7), 0xFF);
    assert_eq!(at(8, 0), 0x05);
    assert_eq!(at(248, 0), 0x05);
}
