use rust_byte::cpu::mirroring::Mirroring;
use rust_byte::ppu::address_register::AddressRegister;
use rust_byte::ppu::controller_register::ControllerRegister;
use rust_byte::ppu::mask_register::{Color, MaskRegister};
use rust_byte::ppu::ppu::PPU;

#[test]
fn verify_vram_write_behavior() {
    let mut ppu = PPU::new_empty_rom();

    ppu.write_address_register(0x22);
    ppu.write_address_register(0x15);
    ppu.write(0x38);

    assert_eq!(ppu.ram[0x0215], 0x38);
}

#[test]
fn verify_vram_read_sequence() {
    let mut ppu = PPU::new_empty_rom();

    ppu.write_control_register(0);
    ppu.ram[0x02F4] = 0x34;

    ppu.write_address_register(0x22);
    ppu.write_address_register(0xF4);

    // pre-fetch
    ppu.read();

    assert_eq!(ppu.address_register.get(), 0x22F5);
    assert_eq!(ppu.read(), 0x34);
}

#[test]
fn verify_vram_read_wraparound() {
    let mut ppu = PPU::new_empty_rom();

    ppu.ram[0x01FE] = 0x11;
    ppu.ram[0x01FF] = 0x22;

    ppu.write_address_register(0x21);
    ppu.write_address_register(0xFE);

    // pre-fetch
    ppu.read();
    assert_eq!(ppu.read(), 0x11);
    assert_eq!(ppu.read(), 0x22);
}

#[test]
fn verify_vram_read_step_size() {
    let mut ppu = PPU::new_empty_rom();
    ppu.write_control_register(0b100);
    ppu.ram[0x01E0] = 0x33;
    ppu.ram[0x01E0 + 32] = 0x44;
    ppu.ram[0x01E0 + 64] = 0x55;

    ppu.write_address_register(0x21);
    ppu.write_address_register(0xE0);

    // pre-fetch
    ppu.read();
    assert_eq!(ppu.read(), 0x33);
    assert_eq!(ppu.read(), 0x44);
    assert_eq!(ppu.read(), 0x55);
}

#[test]
fn test_horizontal_mirroring_logic() {
    let mut ppu = PPU::new_empty_rom();
    ppu.write_address_register(0x25);
    ppu.write_address_register(0x10);

    // write to mirrored region A
    ppu.write(0xAA);

    ppu.write_address_register(0x29);
    ppu.write_address_register(0x10);

    // write to mirrored region B
    ppu.write(0xBB);

    ppu.write_address_register(0x21);
    ppu.write_address_register(0x10);

    // pre-fetch
    ppu.read();
    assert_eq!(ppu.read(), 0xAA);

    ppu.write_address_register(0x2D);
    ppu.write_address_register(0x10);

    // pre-fetch
    ppu.read();
    assert_eq!(ppu.read(), 0xBB);
}

#[test]
fn test_vertical_mirroring_logic() {
    let mut ppu = PPU::new(vec![0; 2048], Mirroring::Vertical);

    ppu.write_address_register(0x20);
    ppu.write_address_register(0x07);

    // write to mirrored region A
    ppu.write(0xCC);

    ppu.write_address_register(0x2C);
    ppu.write_address_register(0x07);

    // write to mirrored region B
    ppu.write(0xDD);

    ppu.write_address_register(0x28);
    ppu.write_address_register(0x07);

    // pre-fetch
    ppu.read();
    assert_eq!(ppu.read(), 0xCC);

    ppu.write_address_register(0x24);
    ppu.write_address_register(0x07);

    // pre-fetch
    ppu.read();
    assert_eq!(ppu.read(), 0xDD);
}

#[test]
fn validate_status_latch_reset() {
    let mut ppu = PPU::new_empty_rom();
    ppu.ram[0x0307] = 0x88;

    ppu.write_address_register(0x21);
    ppu.write_address_register(0x23);
    ppu.write_address_register(0x07);

    // pre-fetch
    ppu.read();
    assert_ne!(ppu.read(), 0x88);

    // reset latch
    ppu.read_status_register();

    ppu.write_address_register(0x23);
    ppu.write_address_register(0x07);

    // pre-fetch
    ppu.read();
    assert_eq!(ppu.read(), 0x88);
}

#[test]
fn validate_oam_read_write() {
    let mut ppu = PPU::new_empty_rom();
    ppu.write_oam_address(0x12);
    ppu.write_oam_data(0x99);
    ppu.write_oam_data(0xAA);

    ppu.write_oam_address(0x12);
    assert_eq!(ppu.read_oam_data(), 0x99);

    ppu.write_oam_address(0x13);
    assert_eq!(ppu.read_oam_data(), 0xAA);
}

#[test]
fn validate_oam_dma_transfer() {
    let mut ppu = PPU::new_empty_rom();

    let mut dma_buffer = [0x55; 256];
    dma_buffer[0] = 0xAA;
    dma_buffer[255] = 0xBB;

    ppu.write_oam_address(0x00);
    ppu.write_oam_dma(&dma_buffer);

    ppu.write_oam_address(0x00);
    assert_eq!(ppu.read_oam_data(), 0xAA);

    ppu.write_oam_address(0x80);
    assert_eq!(ppu.read_oam_data(), 0x55);

    ppu.write_oam_address(0xFF);
    assert_eq!(ppu.read_oam_data(), 0xBB);
}

#[test]
fn oam_dma_wraps_from_nonzero_start() {
    let mut ppu = PPU::new_empty_rom();
    let mut data = [0u8; 256];
    for (k, b) in data.iter_mut().enumerate() {
        *b = k as u8;
    }
    ppu.write_oam_address(0xF0);
    ppu.write_oam_dma(&data);
    assert_eq!(ppu.oam_address, 0xF0);
    assert_eq!(ppu.oam[0xF0], 0);
    assert_eq!(ppu.oam[0xFF], 0x0F);
    assert_eq!(ppu.oam[0x00], 0x10);
}

#[test]
fn status_read_twice_clears_vblank() {
    let mut ppu = PPU::new_empty_rom();
    ppu.status_register.value = 0xC0;
    ppu.write_address_register(0x21);
    assert_eq!(ppu.read_status_register() & 0x80, 0x80);
    assert!(ppu.address_register.high_byte);
    assert_eq!(ppu.read_status_register() & 0x80, 0);
}

#[test]
fn vram_round_trip_through_registers() {
    let mut ppu = PPU::new_empty_rom();
    ppu.write_address_register(0x2C);
    ppu.write_address_register(0x05);
    assert!(ppu.write(0x77));
    ppu.read_status_register();
    ppu.write_address_register(0x2C);
    ppu.write_address_register(0x05);
    ppu.read();
    assert_eq!(ppu.read(), 0x77);
}

#[test]
fn nametable_mirror_above_3000() {
    let mut ppu = PPU::new_empty_rom();
    ppu.write_address_register(0x31);
    ppu.write_address_register(0x10);
    ppu.write(0x5A);
    assert_eq!(ppu.ram[0x0110], 0x5A);
    assert_eq!(ppu.mirror(0x3110), 0x0110);
    assert_eq!(ppu.mirror(0x2C10), 0x0410);
}

#[test]
fn palette_aliases_and_unbuffered_reads() {
    let mut ppu = PPU::new_empty_rom();
    ppu.write_address_register(0x3F);
    ppu.write_address_register(0x10);
    ppu.write(0x2A);
    assert_eq!(ppu.palette[0], 0x2A);
    ppu.write_address_register(0x3F);
    ppu.write_address_register(0x00);
    assert_eq!(ppu.read(), 0x2A);
}

#[test]
fn chr_write_is_refused() {
    let mut ppu = PPU::new_empty_rom();
    ppu.write_address_register(0x00);
    ppu.write_address_register(0x10);
    assert!(!ppu.write(0x99));
    assert_eq!(ppu.chr[0x10], 0);
    assert_eq!(ppu.address_register.get(), 0x0011);
}

#[test]
fn tick_raises_vblank_and_nmi_then_ends_frame() {
    let mut ppu = PPU::new_empty_rom();
    ppu.write_control_register(0x80);
    let mut frames = 0;
    let mut saw_nmi = false;
    for _ in 0..(341 * 262 / 3 + 1) {
        if ppu.tick(3) {
            frames += 1;
        }
        assert!(ppu.cycles <= 340);
        assert!(ppu.scanline <= 261);
        if ppu.scanline == 241 {
            assert!(ppu.nmi);
            assert_eq!(ppu.status_register.value & 0x80, 0x80);
            saw_nmi = true;
        }
    }
    assert!(saw_nmi);
    assert_eq!(frames, 1);
    assert!(!ppu.nmi);
}

#[test]
fn enabling_nmi_during_vblank_raises_it() {
    let mut ppu = PPU::new_empty_rom();
    ppu.write_control_register(0);
    ppu.status_register.value = 0x80;
    ppu.write_control_register(0x80);
    assert!(ppu.nmi);
}

#[test]
fn scroll_and_address_share_the_latch() {
    let mut ppu = PPU::new_empty_rom();
    ppu.write_scroll_register(0x10);
    ppu.write_address_register(0x05);
    assert_eq!(ppu.scroll_register.scroll_x, 0x10);
    assert_eq!(ppu.address_register.get(), 0x0005);
    assert!(ppu.address_register.high_byte);
}

#[test]
fn address_register_wraps_at_14_bits() {
    let mut reg = AddressRegister::new();
    reg.set(0xFF);
    reg.set(0xFF);
    assert_eq!(reg.get(), 0x3FFF);
    reg.add(1);
    assert_eq!(reg.get(), 0);
}

#[test]
fn controller_register_fields() {
    let mut ctrl = ControllerRegister::new();
    ctrl.value = 0b1011_1111;
    assert_eq!(ctrl.nametable(), 0x2C00);
    assert_eq!(ctrl.vram_increment(), 32);
    assert_eq!(ctrl.sprite_pattern_table(), 0x1000);
    assert_eq!(ctrl.background_pattern_table(), 0x1000);
    assert_eq!(ctrl.sprite_size(), 16);
    assert!(ctrl.vblank());
    assert!(!ctrl.master_slave());
    ctrl.value = 0b0000_0001;
    assert_eq!(ctrl.nametable(), 0x2400);
    assert_eq!(ctrl.vram_increment(), 1);
    assert_eq!(ctrl.sprite_size(), 8);
}

#[test]
fn mask_register_emphasis() {
    let mut mask = MaskRegister::new();
    mask.value = 0b1010_0000;
    assert_eq!(mask.color_emphasis(), vec![Color::Red, Color::Blue]);
    mask.value = 0b0100_0000;
    assert_eq!(mask.color_emphasis(), vec![Color::Green]);
}
