//! Cartridge header parsing and MBC1 bank routing.

use dmg_core::cartridge::{Cartridge, CartridgeHeader, CartridgeType};
use dmg_core::memory::Memory;

/// A minimal MBC1 image: `banks` ROM banks of 16 KiB, RAM size code
/// `ram_code`, and each ROM bank filled with its own index.
fn test_rom(kind: u8, rom_code: u8, ram_code: u8, banks: usize) -> Vec<u8> {
    let mut rom = vec![0u8; banks * 0x4000];
    for bank in 0..banks {
        for i in 0..0x4000 {
            rom[bank * 0x4000 + i] = bank as u8;
        }
    }
    let title = b"TESTCART";
    for (i, b) in title.iter().enumerate() {
        rom[0x0134 + i] = *b;
    }
    rom[0x0147] = kind;
    rom[0x0148] = rom_code;
    rom[0x0149] = ram_code;
    rom
}

#[test]
fn header_parses_valid_rom() {
    let rom = test_rom(0x01, 0x01, 0x02, 4);
    let header = CartridgeHeader::from_rom(&rom).unwrap();
    assert!(matches!(header.cartridge_type, CartridgeType::Mbc1));
    assert_eq!(header.rom_size, 65536);
    assert_eq!(header.ram_size, 8192);
    assert_eq!(header.title, "TESTCART");
}

#[test]
fn header_title_trims_trailing_nuls() {
    let mut rom = vec![0u8; 0x8000];
    rom[0x0134] = b'A';
    rom[0x0135] = b'B';
    let header = CartridgeHeader::from_rom(&rom).unwrap();
    assert_eq!(header.title, "AB");
}

#[test]
fn header_rejects_short_rom() {
    let rom = vec![0u8; 0x0100];
    assert!(CartridgeHeader::from_rom(&rom).is_err());
}

#[test]
fn header_rejects_bad_rom_size_code() {
    let mut rom = vec![0u8; 0x8000];
    rom[0x0148] = 0x09;
    let err = CartridgeHeader::from_rom(&rom).unwrap_err();
    assert_eq!(err, "Invalid ROM size");
}

#[test]
fn header_rejects_bad_ram_size_code() {
    let mut rom = vec![0u8; 0x8000];
    rom[0x0149] = 0x06;
    let err = CartridgeHeader::from_rom(&rom).unwrap_err();
    assert_eq!(err, "Invalid RAM size");
}

#[test]
fn rom_only_ignores_writes() {
    let rom = test_rom(0x00, 0x00, 0x00, 2);
    let mut cart = Cartridge::from_bytes(rom).unwrap();
    cart.write_byte(0x2000, 0x02);
    // Bank latch untouched: the switchable window still shows bank 1.
    assert_eq!(cart.read_byte(0x4000), 0x01);
}

#[test]
fn mbc1_switches_rom_banks() {
    let rom = test_rom(0x01, 0x02, 0x00, 8);
    let mut cart = Cartridge::from_bytes(rom).unwrap();
    assert_eq!(cart.read_byte(0x0000), 0x00);
    assert_eq!(cart.read_byte(0x4000), 0x01);
    cart.write_byte(0x2000, 0x05);
    assert_eq!(cart.read_byte(0x4000), 0x05);
    // Selecting bank 0 lands on bank 1 instead.
    cart.write_byte(0x2000, 0x00);
    assert_eq!(cart.read_byte(0x4000), 0x01);
}

#[test]
fn mbc1_out_of_range_bank_reads_ff() {
    let rom = test_rom(0x01, 0x00, 0x00, 2);
    let mut cart = Cartridge::from_bytes(rom).unwrap();
    cart.write_byte(0x2000, 0x1F);
    assert_eq!(cart.read_byte(0x4000), 0xFF);
}

#[test]
fn mbc1_ram_gating() {
    let rom = test_rom(0x02, 0x00, 0x02, 2);
    let mut cart = Cartridge::from_bytes(rom).unwrap();
    // Disabled RAM reads 0xFF and drops writes.
    assert_eq!(cart.read_byte(0xA000), 0xFF);
    cart.write_byte(0xA000, 0x12);
    assert_eq!(cart.read_byte(0xA000), 0xFF);
    // Enabling with low nibble 0xA makes it a plain byte cell.
    cart.write_byte(0x0000, 0x0A);
    cart.write_byte(0xA000, 0x12);
    assert_eq!(cart.read_byte(0xA000), 0x12);
    // Any other value disables again.
    cart.write_byte(0x0000, 0x00);
    assert_eq!(cart.read_byte(0xA000), 0xFF);
}

#[test]
fn bus_routes_rom_through_cartridge() {
    let rom = test_rom(0x01, 0x00, 0x00, 2);
    let cart = Cartridge::from_bytes(rom).unwrap();
    let mut memory = Memory::new();
    memory.load_cartridge(cart);
    assert_eq!(memory.read_byte(0x0000), 0x00);
    assert_eq!(memory.read_byte(0x4000), 0x01);
    // A ROM-space write through the bus moves a latch, never the ROM bytes.
    memory.write_byte(0x2000, 0x01);
    assert_eq!(memory.read_byte(0x0000), 0x00);
    assert_eq!(memory.read_byte(0x4000), 0x01);
}

#[test]
fn no_cartridge_rom_area_is_plain_memory() {
    let mut memory = Memory::new();
    memory.write_byte(0x0100, 0x3E);
    assert_eq!(memory.read_byte(0x0100), 0x3E);
}
