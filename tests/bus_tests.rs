use rust_byte::cpu::bus::{Bus, WriteError};
use rust_byte::cpu::cartridge::{Cartridge, CartridgeError};
use rust_byte::cpu::mirroring::Mirroring;
use rust_byte::flags::Button;
use rust_byte::trace::test_rom;

fn image(flags6: u8, flags7: u8, prg_banks: u8, chr_banks: u8, trainer: bool) -> Vec<u8> {
    let mut data = vec![0x4E, 0x45, 0x53, 0x1A, prg_banks, chr_banks, flags6, flags7, 0, 0, 0, 0, 0, 0, 0, 0];
    if trainer {
        data.extend(vec![9u8; 512]);
    }
    for i in 0..(prg_banks as usize * 0x4000) {
        data.push((i % 251) as u8);
    }
    data.extend(vec![2u8; chr_banks as usize * 0x2000]);
    data
}

#[test]
fn cartridge_splits_prg_and_chr() {
    let c = Cartridge::new(image(0x31, 0x00, 1, 1, false)).unwrap();
    assert_eq!(c.prg_rom.len(), 0x4000);
    assert_eq!(c.chr_rom.len(), 0x2000);
    assert_eq!(c.prg_rom[1], 1);
    assert_eq!(c.chr_rom[0], 2);
    assert_eq!(c.mirroring, Mirroring::Vertical);
    assert_eq!(c.mapper, 3);
}

#[test]
fn cartridge_skips_trainer() {
    let c = Cartridge::new(image(0x04, 0x10, 1, 1, true)).unwrap();
    assert_eq!(c.prg_rom[0], 0);
    assert_eq!(c.prg_rom[5], 5);
    assert_eq!(c.mirroring, Mirroring::Horizontal);
    assert_eq!(c.mapper, 0x10);
}

#[test]
fn cartridge_rejects_bad_magic() {
    let mut data = image(0, 0, 1, 1, false);
    data[3] = 0x1B;
    assert_eq!(Cartridge::new(data).unwrap_err(), CartridgeError::InvalidMagic);
}

#[test]
fn cartridge_rejects_version() {
    assert_eq!(Cartridge::new(image(0, 0x08, 1, 1, false)).unwrap_err(), CartridgeError::UnsupportedVersion);
}

#[test]
fn cartridge_rejects_four_screen() {
    assert_eq!(Cartridge::new(image(0x08, 0, 1, 1, false)).unwrap_err(), CartridgeError::UnsupportedMapper);
}

#[test]
fn cartridge_rejects_truncated() {
    assert_eq!(Cartridge::new(vec![0x4E, 0x45]).unwrap_err(), CartridgeError::Truncated);
    let mut data = image(0, 0, 1, 1, false);
    data.pop();
    assert_eq!(Cartridge::new(data).unwrap_err(), CartridgeError::Truncated);
}

#[test]
fn ram_is_mirrored_every_2k() {
    let mut bus = Bus::new(test_rom());
    bus.write(0x0001, 0x42).unwrap();
    assert_eq!(bus.read(0x0801), 0x42);
    assert_eq!(bus.read(0x1801), 0x42);
    assert_eq!(bus.read_u16(0x0000), 0x4200);
}

#[test]
fn rom_write_is_refused() {
    let mut bus = Bus::new(test_rom());
    assert_eq!(bus.write(0x8000, 7), Err(WriteError::ProgramRom));
    assert_eq!(bus.read(0x8000), 1);
}

#[test]
fn sixteen_k_rom_is_mirrored() {
    let mut bus = Bus::new(Cartridge::new(image(0, 0, 1, 1, false)).unwrap());
    assert_eq!(bus.read(0x8005), 5);
    assert_eq!(bus.read(0xC005), 5);
}

#[test]
fn ppu_registers_are_mirrored_every_8_bytes() {
    let mut bus = Bus::new(test_rom());
    bus.write(0x3FFE, 0x21).unwrap();
    bus.write(0x2006, 0x08).unwrap();
    assert_eq!(bus.ppu.address_register.get(), 0x2108);
}

#[test]
fn write_only_registers_read_zero() {
    let mut bus = Bus::new(test_rom());
    bus.write(0x2000, 0x80).unwrap();
    assert_eq!(bus.read(0x2000), 0);
    assert_eq!(bus.read(0x4014), 0);
    assert_eq!(bus.read(0x4017), 0);
}

#[test]
fn chr_write_through_bus_is_refused() {
    let mut bus = Bus::new(test_rom());
    bus.write(0x2006, 0x00).unwrap();
    bus.write(0x2006, 0x10).unwrap();
    assert_eq!(bus.write(0x2007, 1), Err(WriteError::CharacterRom));
}

#[test]
fn oam_dma_copies_a_ram_page() {
    let mut bus = Bus::new(test_rom());
    for k in 0..256u16 {
        bus.write(0x0200 + k, k as u8).unwrap();
    }
    bus.write(0x2003, 0x10).unwrap();
    bus.write(0x4014, 0x02).unwrap();
    for k in 0..256usize {
        assert_eq!(bus.ppu.oam[(0x10 + k) % 256], k as u8);
    }
    assert_eq!(bus.ppu.oam_address, 0x10);
}

#[test]
fn oam_dma_copies_a_rom_page() {
    let mut bus = Bus::new(test_rom());
    bus.write(0x4014, 0x80).unwrap();
    assert!(bus.ppu.oam.iter().all(|&b| b == 1));
}

#[test]
fn status_read_through_bus() {
    let mut bus = Bus::new(test_rom());
    bus.ppu.status_register.value = 0x80;
    assert_eq!(bus.read(0x2002), 0x80);
    assert_eq!(bus.read(0x2002), 0x00);
}

#[test]
fn joypad_through_bus() {
    let mut bus = Bus::new(test_rom());
    bus.joypad.add(Button::A);
    bus.joypad.add(Button::RIGHT);
    bus.write(0x4016, 1).unwrap();
    bus.write(0x4016, 0).unwrap();
    let bits: Vec<u8> = (0..9).map(|_| bus.read(0x4016)).collect();
    assert_eq!(bits, vec![1, 0, 0, 0, 0, 0, 0, 1, 1]);
}

#[test]
fn tick_counts_cycles_and_marks_frames() {
    let mut bus = Bus::new(test_rom());
    bus.write(0x2000, 0x80).unwrap();
    let mut ticks = 0u64;
    while !bus.frame_ready {
        bus.tick(7);
        ticks += 7;
    }
    assert_eq!(bus.cycles, ticks);
    assert!(bus.nmi_status());
    assert!(!bus.nmi_status());
    assert!(bus.poll_frame());
    assert!(!bus.poll_frame());
    assert_eq!(bus.ppu.scanline, 241);
}
