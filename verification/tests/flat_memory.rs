use gameboy::emulator::gameboy::Gameboy;
use gameboy::emulator::interrupts_helper::request_interrupt;
use gameboy::emulator::mbcs::mbc::Mbc;
use gameboy::emulator::mbcs::mbc1::MBC1;
use gameboy::emulator::mbcs::rom::Rom;
use gameboy::emulator::memory::Memory;
use gameboy::emulator::ppu::{Ppu, PpuMode};

fn flat() -> Memory {
    let mut image = vec![0u8; 4 * 0x4000];
    image[0x0000] = 0xC0;
    image[0x0150] = 0xC1;
    image[0x4000] = 0xC2;
    image[0x8000] = 0xC3;
    Memory::new(Mbc::Mbc1(MBC1::new(image, 0x10000)))
}

#[test]
fn flat_memory_reads_the_boot_page_from_the_array_until_it_is_switched_off() {
    let mut memory = flat();
    assert_eq!(memory.load_rom(&vec![0x31, 0xFE, 0xFF]), 3);
    assert_eq!(memory.read_byte(0x0000), 0x31);
    assert_eq!(memory.read_byte(0x0002), 0xFF);
    assert_eq!(memory.read_byte(0x0150), 0xC1);
    memory.write_byte(0xFF50, 1);
    assert_eq!(memory.read_byte(0x0000), 0xC0);
    assert_eq!(memory.get_byte(0x0000), 0x31);
}

#[test]
fn flat_memory_leaves_the_cartridge_its_ranges() {
    let mut memory = flat();
    assert_eq!(memory.read_byte(0x4000), 0xC2);
    memory.write_byte(0x2000, 2);
    assert_eq!(memory.read_byte(0x4000), 0xC3);
    assert_eq!(memory.get_byte(0x2000), 0);
    memory.write_byte(0x0000, 0x0A);
    memory.write_byte(0xA010, 0x99);
    assert_eq!(memory.read_byte(0xA010), 0x99);
    assert_eq!(memory.get_byte(0xA010), 0);
}

#[test]
fn flat_memory_treats_the_special_registers() {
    let mut memory = flat();
    memory.write_byte(0xFF01, 0x41);
    assert_eq!(memory.read_byte(0xFF01), 0xFF);
    assert_eq!(memory.get_byte(0xFF01), 0x41);
    memory.write_byte_uncheck(0xFF04, 0x77);
    assert_eq!(memory.read_byte(0xFF04), 0x77);
    memory.write_byte(0xFF04, 0x55);
    assert_eq!(memory.read_byte(0xFF04), 0);
    assert!(memory.div_reset);
    memory.write_byte(0xC000, 0x12);
    memory.write_byte(0xE000, 0x34);
    assert_eq!(memory.read_byte(0xC000), 0x12);
    assert_eq!(memory.read_byte(0xE000), 0x34);
}

#[test]
fn flat_memory_carries_an_oam_transfer_out_after_640_cycles() {
    let mut memory = flat();
    for offset in 0..160u16 {
        memory.write_byte(0xC200 + offset, 0xFF - offset as u8);
    }
    memory.update_transfer(1000);
    assert_eq!(memory.read_byte(0xFE00), 0);
    memory.write_byte(0xFF46, 0xC2);
    assert!(memory.dma_transfer_active);
    assert_eq!(memory.read_byte(0xFF46), 0xC2);
    memory.update_transfer(320);
    memory.update_transfer(-5);
    memory.update_transfer(316);
    assert_eq!(memory.dma_transfer_cycle, 636);
    assert_eq!(memory.read_byte(0xFE00), 0);
    memory.update_transfer(4);
    assert!(!memory.dma_transfer_active);
    assert_eq!(memory.dma_transfer_cycle, 0);
    for offset in 0..160u16 {
        assert_eq!(memory.read_byte(0xFE00 + offset), 0xFF - offset as u8);
    }
    assert_eq!(memory.read_byte(0xFEA0), 0);
    assert_eq!(memory.read_byte(0xC200), 0xFF);
}

#[test]
fn interrupt_flags_in_flat_memory_are_raised_bit_by_bit() {
    let mut memory = flat();
    request_interrupt(2, &mut memory);
    assert_eq!(memory.read_byte(0xFF0F), 0x04);
    request_interrupt(0, &mut memory);
    request_interrupt(2, &mut memory);
    assert_eq!(memory.read_byte(0xFF0F), 0x05);
}

#[test]
fn validity_is_told_of_every_part() {
    let mut gb = Gameboy::new(vec![0u8; 0x8000]).unwrap();
    assert!(gb.is_valid());
    gb.bus.ppu.frame_buffer[23039] = 4;
    assert!(!gb.is_valid());
    gb.bus.ppu.frame_buffer[23039] = 3;
    assert!(gb.is_valid());

    let mut ppu = Ppu::default();
    assert!(ppu.is_valid());
    ppu.oam_buffer = vec![0, 4, 8, 12, 16, 20, 24, 28, 32, 156];
    assert!(ppu.is_valid());
    ppu.oam_buffer.push(40);
    assert!(!ppu.is_valid());
    ppu.oam_buffer = vec![157];
    assert!(!ppu.is_valid());
    ppu.oam_buffer.clear();
    ppu.current_cycle = 80;
    assert!(!ppu.is_valid());
    ppu.mode = PpuMode::DRAW;
    assert!(ppu.is_valid());
    ppu.ly = 144;
    assert!(!ppu.is_valid());
    ppu.mode = PpuMode::VBLANK;
    assert!(ppu.is_valid());
    ppu.ly = 154;
    assert!(!ppu.is_valid());
    ppu.ly = 153;
    ppu.dma_transfer_cycle = 640;
    assert!(!ppu.is_valid());
    ppu.dma_transfer_cycle = -1;
    assert!(!ppu.is_valid());

    let mut controller = MBC1::new(vec![0u8; 0x8000], 0x8000);
    assert!(controller.is_valid());
    controller.ram_bank = 4;
    assert!(!controller.is_valid());
    controller.ram_bank = 3;
    controller.rom.truncate(0x7FFF);
    assert!(!controller.is_valid());
}

#[test]
fn video_and_sprite_memory_stay_open_in_every_phase() {
    let mut gb = Gameboy::new(vec![0u8; 0x8000]).unwrap();
    gb.bus.write_byte(0xFF40, 0x80);
    let mut seen = Vec::new();
    for step in 0..120u16 {
        gb.bus.advance(4);
        let value = step as u8 | 0x80;
        gb.bus.write_byte(0x8000 + step, value);
        gb.bus.write_byte(0xFE00 + step, value);
        assert_eq!(gb.bus.read_byte(0x8000 + step), value);
        assert_eq!(gb.bus.read_byte(0xFE00 + step), value);
        if !seen.contains(&gb.bus.ppu.mode) {
            seen.push(gb.bus.ppu.mode);
        }
    }
    assert_eq!(seen, vec![PpuMode::OAM_SCAN, PpuMode::DRAW, PpuMode::HBLANK, PpuMode::OAM_SCAN]
        .into_iter()
        .fold(Vec::new(), |mut modes, mode| {
            if !modes.contains(&mode) {
                modes.push(mode);
            }
            modes
        }));
}

#[test]
fn create_memory_and_load_rom() {
    let mut memory = Memory::new(Mbc::Rom(Rom::new(vec![0u8; 0x8000])));
    // A boot image of the size that "./roms/mgb_boot.bin" has: one page.
    let image: Vec<u8> = (0..=255u8).map(|byte| byte ^ 0x31).collect();
    let res = memory.load_rom(&image);
    assert_eq!(res, 256);
    assert_eq!(memory.read_byte(0x0000), 0x31);
    assert_eq!(memory.read_byte(0x00FF), 0xCE);
    assert_eq!(memory.read_byte(0x0100), 0x00);
}
