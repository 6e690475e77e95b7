use gband::cartridge::Cartridge;
use gband::header::{Header, RomParserError};

/// A ROM of `size` bytes with the given type and RAM size codes and a valid header checksum.
fn rom_with(size: usize, cartridge_type: u8, rom_size: u8, ram_size: u8) -> Vec<u8> {
    let mut rom = vec![0u8; size];
    rom[0x147] = cartridge_type;
    rom[0x148] = rom_size;
    rom[0x149] = ram_size;
    let mut checksum: u8 = 0;
    for b in &rom[0x134..0x14D] {
        checksum = checksum.wrapping_sub(*b).wrapping_sub(1);
    }
    rom[0x14D] = checksum;
    rom
}

#[test]
fn too_short_rom_is_refused() {
    let rom = vec![0u8; 0x14F];
    assert_eq!(Cartridge::load(&rom, None).err(), Some(RomParserError::TooShort));
}

#[test]
fn bad_checksum_is_refused() {
    let mut rom = rom_with(0x8000, 0x00, 0x00, 0x00);
    rom[0x14D] = rom[0x14D].wrapping_add(1);
    assert_eq!(Cartridge::load(&rom, None).err(), Some(RomParserError::InvalidChecksum));
    // Even with an unknown type code the checksum is checked first
    let mut rom = rom_with(0x8000, 0x04, 0x00, 0x00);
    rom[0x14D] = rom[0x14D].wrapping_add(1);
    assert_eq!(Cartridge::load(&rom, None).err(), Some(RomParserError::InvalidChecksum));
}

#[test]
fn zero_header_checksum_is_231() {
    let mut rom = vec![0u8; 0x150];
    rom[0x14D] = 231;
    assert!(Cartridge::load(&rom, None).is_ok());
    let header = Header::parse(&rom[0x100..0x150]).ok().unwrap();
    assert_eq!(header.header_checksum, 231);
}

#[test]
fn unknown_and_unimplemented_mappers() {
    let rom = rom_with(0x8000, 0x04, 0x00, 0x00);
    assert_eq!(Cartridge::load(&rom, None).err(), Some(RomParserError::UnknownMapper));
    let rom = rom_with(0x8000, 0x20, 0x00, 0x00);
    assert_eq!(Cartridge::load(&rom, None).err(), Some(RomParserError::MapperNotImplemented));
    assert_eq!(RomParserError::UnknownMapper.to_string(), "UnknownMapper");
}

#[test]
fn header_fields() {
    let mut rom = rom_with(0x8000, 0x01, 0x05, 0x00);
    rom[0x134] = b'T';
    let mut checksum: u8 = 0;
    for b in &rom[0x134..0x14D] {
        checksum = checksum.wrapping_sub(*b).wrapping_sub(1);
    }
    rom[0x14D] = checksum;
    let header = Header::parse(&rom[0x100..0x150]).ok().unwrap();
    assert_eq!(header.title[0], b'T');
    // MBC1 with size code 5 has 63 usable banks
    assert_eq!(header.rom_banks, 63);
    let rom = rom_with(0x8000, 0x19, 0x02, 0x00);
    let header = Header::parse(&rom[0x100..0x150]).ok().unwrap();
    assert_eq!(header.rom_banks, 8);
}

fn round_trip(cartridge_type: u8, ram_size: u8, enable: bool) -> u8 {
    let rom = rom_with(0x8000, cartridge_type, 0x00, ram_size);
    let mut cart = Cartridge::load(&rom, None).ok().unwrap();
    if enable {
        cart.write(0x0000, 0x0A);
    }
    cart.write(0xA123, 0x42);
    cart.read(0xA123)
}

#[test]
fn ram_round_trips_for_every_mapper() {
    assert_eq!(round_trip(0x09, 0x02, false), 0x42); // no controller
    assert_eq!(round_trip(0x03, 0x02, true), 0x42); // MBC1
    assert_eq!(round_trip(0x06, 0x00, true), 0xF2); // MBC2: nibble-wide
    assert_eq!(round_trip(0x13, 0x03, true), 0x42); // MBC3
    assert_eq!(round_trip(0x1B, 0x03, true), 0x42); // MBC5
}

#[test]
fn disabled_ram_reads_zero_and_ignores_writes() {
    assert_eq!(round_trip(0x03, 0x02, false), 0x00);
}

fn banked_rom(cartridge_type: u8) -> Cartridge {
    let mut rom = rom_with(0x10000, cartridge_type, 0x01, 0x00);
    for bank in 0..4usize {
        rom[bank * 0x4000 + 0x10] = bank as u8 + 0x30;
    }
    Cartridge::load(&rom, None).ok().unwrap()
}

#[test]
fn bank_zero_selects_bank_one() {
    for t in [0x01u8, 0x11u8] {
        let mut cart = banked_rom(t);
        cart.write(0x2000, 0x02);
        assert_eq!(cart.read(0x4010), 0x32);
        cart.write(0x2000, 0x00);
        assert_eq!(cart.read(0x4010), 0x31);
    }
    // MBC2 selects the ROM bank with address bit 8 set
    let mut cart = banked_rom(0x05);
    cart.write(0x2100, 0x10);
    assert_eq!(cart.read(0x4010), 0x31);
    // MBC5 has no such rule: bank 0 maps bank 0
    let mut cart = banked_rom(0x19);
    cart.write(0x2000, 0x00);
    assert_eq!(cart.read(0x4010), 0x30);
}

#[test]
fn matching_save_data_is_loaded_and_other_sizes_dropped() {
    let rom = rom_with(0x8000, 0x03, 0x02, 0x02);
    let save = vec![7u8; 0x2000];
    let cart = Cartridge::load(&rom, Some(&save)).ok().unwrap();
    assert_eq!(cart.get_save_data().unwrap()[5], 7);
    let short = vec![7u8; 0x100];
    let cart = Cartridge::load(&rom, Some(&short)).ok().unwrap();
    assert_eq!(cart.get_save_data().unwrap().len(), 0x2000);
    assert_eq!(cart.get_save_data().unwrap()[5], 0);
    let rom = rom_with(0x8000, 0x00, 0x00, 0x00);
    let cart = Cartridge::load(&rom, None).ok().unwrap();
    assert!(cart.get_save_data().is_none());
}

#[test]
fn ram_size_follows_the_header() {
    for (code, size) in [(0x02u8, 0x2000usize), (0x03, 0x8000), (0x04, 0x20000), (0x05, 0x10000)] {
        let rom = rom_with(0x8000, 0x03, 0x00, code);
        let cart = Cartridge::load(&rom, None).ok().unwrap();
        let ram = cart.get_save_data().unwrap();
        assert_eq!(ram.len(), size);
        assert!(ram.iter().all(|b| *b == 0));
    }
    let rom = rom_with(0x8000, 0x05, 0x00, 0x00);
    assert_eq!(Cartridge::load(&rom, None).ok().unwrap().get_save_data().unwrap().len(), 512);
    let rom = rom_with(0x8000, 0x03, 0x00, 0x01);
    assert!(Cartridge::load(&rom, None).ok().unwrap().get_save_data().is_none());
}
