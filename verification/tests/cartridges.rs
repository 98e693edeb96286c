use gameboy::emulator::cartridge::{cartridge_kind, load_cartridge, rom_size, CartridgeError, CartridgeKind};
use gameboy::emulator::gameboy::Gameboy;
use gameboy::emulator::mbcs::mbc::Mbc;
use gameboy::emulator::mbcs::mbc1::MBC1;
use gameboy::emulator::mbcs::mbc5::MBC5;
use gameboy::emulator::mbcs::rom::Rom;

/// An image of `banks` banks of 16 KiB in which every byte tells its bank
/// and the byte at offset 0 of each bank tells it too.
fn banked_image(banks: usize, kind: u8) -> Vec<u8> {
    let mut image = vec![0u8; banks * 0x4000];
    for bank in 0..banks {
        for offset in 0..0x4000 {
            image[bank * 0x4000 + offset] = (bank as u8).wrapping_mul(3).wrapping_add(offset as u8);
        }
    }
    image[0x147] = kind;
    image[0x148] = 0;
    image
}

fn byte_of(bank: usize, offset: usize) -> u8 {
    (bank as u8).wrapping_mul(3).wrapping_add(offset as u8)
}

#[test]
fn rom_reads_flat_and_ignores_writes() {
    let mut image = vec![0u8; 0x9000];
    image[0x0000] = 0x11;
    image[0x7FFF] = 0x22;
    image[0x8000] = 0x33;
    let mut rom = Rom::new(image);
    assert_eq!(rom.read_byte(0x0000), 0x11);
    assert_eq!(rom.read_byte(0x7FFF), 0x22);
    assert_eq!(rom.read_byte(0x8000), 0xFF);
    assert_eq!(rom.read_byte(0xA123), 0xFF);
    rom.write_byte(0x0000, 0x99);
    rom.write_byte(0x2000, 0x05);
    assert_eq!(rom.read_byte(0x0000), 0x11);
    assert_eq!(rom.read_byte(0x7FFF), 0x22);
}

#[test]
fn mbc1_switches_rom_banks_and_maps_zero_to_one() {
    let mut mbc = MBC1::new(banked_image(8, 1), 0x20000);
    assert_eq!(mbc.read_byte(0x0005), byte_of(0, 5));
    assert_eq!(mbc.read_byte(0x4005), byte_of(1, 5));
    mbc.write_byte(0x2000, 0x03);
    assert_eq!(mbc.rom_bank, 3);
    assert_eq!(mbc.read_byte(0x4005), byte_of(3, 5));
    assert_eq!(mbc.read_byte(0x7FFF), byte_of(3, 0x3FFF));
    assert_eq!(mbc.read_byte(0x0005), byte_of(0, 5));
    mbc.write_byte(0x3FFF, 0x00);
    assert_eq!(mbc.rom_bank, 1);
    mbc.write_byte(0x2000, 0xE7);
    assert_eq!(mbc.rom_bank, 7);
}

#[test]
fn mbc1_wraps_a_bank_beyond_the_image() {
    let mut mbc = MBC1::new(banked_image(4, 1), 0x10000);
    mbc.write_byte(0x2000, 0x06);
    assert_eq!(mbc.rom_bank, 6);
    assert_eq!(mbc.read_byte(0x4000), byte_of(2, 0));
    mbc.write_byte(0x2000, 0x1F);
    assert_eq!(mbc.read_byte(0x4010), byte_of(3, 0x10));
}

#[test]
fn mbc1_mode_decides_what_the_upper_bits_select() {
    let mut mbc = MBC1::new(banked_image(128, 1), 0x200000);
    mbc.write_byte(0x2000, 0x05);
    // Power-on is RAM banking mode: the value selects the RAM bank.
    mbc.write_byte(0x4000, 0x02);
    assert_eq!(mbc.ram_bank, 2);
    assert_eq!(mbc.rom_bank, 5);
    // An even value selects ROM banking and returns to RAM bank 0.
    mbc.write_byte(0x6000, 0x00);
    assert!(mbc.rom_banking);
    assert_eq!(mbc.ram_bank, 0);
    mbc.write_byte(0x4000, 0x03);
    assert_eq!(mbc.rom_bank, 0x65);
    assert_eq!(mbc.read_byte(0x4001), byte_of(0x65, 1));
    mbc.write_byte(0x5FFF, 0x05);
    assert_eq!(mbc.rom_bank, 0x25);
    mbc.write_byte(0x6000, 0x01);
    assert!(!mbc.rom_banking);
    mbc.write_byte(0x4000, 0x07);
    assert_eq!(mbc.ram_bank, 3);
    assert_eq!(mbc.rom_bank, 0x25);
}

#[test]
fn mbc1_ram_reads_ff_until_enabled_and_is_banked() {
    let mut mbc = MBC1::new(banked_image(2, 2), 0x8000);
    mbc.write_byte(0xA000, 0x12);
    assert_eq!(mbc.read_byte(0xA000), 0xFF);
    mbc.write_byte(0x0000, 0x0A);
    assert!(mbc.ram_enable);
    assert_eq!(mbc.read_byte(0xA000), 0x12);
    mbc.write_byte(0x4000, 0x01);
    assert_eq!(mbc.read_byte(0xA000), 0x00);
    mbc.write_byte(0xBFFF, 0x34);
    assert_eq!(mbc.ram[0x3FFF], 0x34);
    mbc.write_byte(0x4000, 0x00);
    assert_eq!(mbc.read_byte(0xA000), 0x12);
    mbc.write_byte(0x1FFF, 0x1A);
    assert!(mbc.ram_enable);
    mbc.write_byte(0x0000, 0x0B);
    assert!(!mbc.ram_enable);
    assert_eq!(mbc.read_byte(0xA000), 0xFF);
}

#[test]
fn mbc5_has_a_nine_bit_rom_bank_and_allows_bank_zero() {
    let mut mbc = MBC5::new(banked_image(512, 0x19));
    assert_eq!(mbc.rom_bank, 1);
    assert_eq!(mbc.read_byte(0x4002), byte_of(1, 2));
    mbc.write_byte(0x2000, 0x00);
    assert_eq!(mbc.rom_bank, 0);
    assert_eq!(mbc.read_byte(0x4002), byte_of(0, 2));
    mbc.write_byte(0x2FFF, 0xFE);
    assert_eq!(mbc.rom_bank, 0xFE);
    mbc.write_byte(0x3000, 0x01);
    assert_eq!(mbc.rom_bank, 0x1FE);
    assert_eq!(mbc.read_byte(0x4002), byte_of(0x1FE, 2));
    mbc.write_byte(0x2000, 0x12);
    assert_eq!(mbc.rom_bank, 0x112);
    mbc.write_byte(0x3FFF, 0xFE);
    assert_eq!(mbc.rom_bank, 0x12);
}

#[test]
fn mbc5_wraps_a_bank_beyond_the_image_and_banks_its_ram() {
    let mut mbc = MBC5::new(banked_image(16, 0x1B));
    mbc.write_byte(0x2000, 0x13);
    assert_eq!(mbc.read_byte(0x4000), byte_of(3, 0));
    mbc.write_byte(0x0000, 0x0A);
    assert!(mbc.ram_enable);
    mbc.write_byte(0x4000, 0x0F);
    assert_eq!(mbc.ram_bank, 15);
    mbc.write_byte(0xBFFF, 0x77);
    assert_eq!(mbc.ram[0x1FFFF], 0x77);
    assert_eq!(mbc.read_byte(0xBFFF), 0x77);
    mbc.write_byte(0x5FFF, 0x10);
    assert_eq!(mbc.ram_bank, 0);
    assert_eq!(mbc.read_byte(0xBFFF), 0x00);
    assert_eq!(mbc.read_byte(0x8000), 0);
}

#[test]
fn cartridge_kinds_follow_the_type_byte() {
    assert_eq!(cartridge_kind(0x00), Some(CartridgeKind::RomOnly));
    for kind in 1..=3 {
        assert_eq!(cartridge_kind(kind), Some(CartridgeKind::Mbc1));
    }
    for kind in 0x19..=0x1E {
        assert_eq!(cartridge_kind(kind), Some(CartridgeKind::Mbc5));
    }
    for kind in [0x04, 0x05, 0x06, 0x18, 0x1F, 0xFF] {
        assert_eq!(cartridge_kind(kind), None);
    }
}

#[test]
fn rom_size_doubles_with_the_code() {
    assert_eq!(rom_size(0), Some(32 * 1024));
    assert_eq!(rom_size(1), Some(64 * 1024));
    assert_eq!(rom_size(8), Some(8 * 1024 * 1024));
    assert_eq!(rom_size(16), Some(0x8000_0000));
    assert_eq!(rom_size(17), None);
    assert_eq!(rom_size(255), None);
}

#[test]
fn load_cartridge_builds_the_kind_that_the_header_names() {
    assert!(matches!(load_cartridge(banked_image(2, 0)), Ok(Mbc::Rom(_))));
    assert!(matches!(load_cartridge(banked_image(4, 3)), Ok(Mbc::Mbc1(_))));
    assert!(matches!(load_cartridge(banked_image(4, 0x1E)), Ok(Mbc::Mbc5(_))));
    let mut mbc = load_cartridge(banked_image(4, 1)).ok().unwrap();
    assert_eq!(mbc.read_byte(0x4000), byte_of(1, 0));
    mbc.write_byte(0x2000, 2);
    assert_eq!(mbc.read_byte(0x4000), byte_of(2, 0));
}

#[test]
fn load_cartridge_refuses_what_it_cannot_take() {
    assert!(matches!(load_cartridge(Vec::new()), Err(CartridgeError::TooSmall)));
    assert!(matches!(load_cartridge(vec![0u8; 0x7FFF]), Err(CartridgeError::TooSmall)));
    assert!(matches!(load_cartridge(banked_image(2, 0x04)), Err(CartridgeError::UnsupportedType(0x04))));
    assert!(matches!(load_cartridge(banked_image(2, 0xFC)), Err(CartridgeError::UnsupportedType(0xFC))));
    assert!(matches!(Gameboy::new(banked_image(2, 0x0B)), Err(CartridgeError::UnsupportedType(0x0B))));
}

#[test]
fn load_cartridge_decides_on_the_type_byte_whatever_size_the_header_declares() {
    for size_code in [0x00u8, 0x08, 0x10, 0x11, 0x52, 0xFF] {
        for (kind, banks) in [(0x00u8, 2usize), (0x01, 4), (0x03, 4), (0x19, 4), (0x1E, 4)] {
            let mut image = banked_image(banks, kind);
            image[0x148] = size_code;
            let mut mbc = load_cartridge(image).ok().unwrap();
            match kind {
                0x00 => assert!(matches!(mbc, Mbc::Rom(_))),
                0x01..=0x03 => assert!(matches!(mbc, Mbc::Mbc1(_))),
                _ => assert!(matches!(mbc, Mbc::Mbc5(_))),
            }
            assert_eq!(mbc.read_byte(0x4001), byte_of(1, 1));
            mbc.write_byte(0x2000, 0x07);
            let bank = if kind == 0 { 1 } else { 7 % banks };
            assert_eq!(mbc.read_byte(0x4001), byte_of(bank, 1));
        }
        let mut image = banked_image(2, 0x04);
        image[0x148] = size_code;
        assert!(matches!(load_cartridge(image), Err(CartridgeError::UnsupportedType(0x04))));
        let mut image = banked_image(2, 0x00);
        image[0x148] = size_code;
        assert!(Gameboy::new(image).is_ok());
    }
}
