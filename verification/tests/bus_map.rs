use gameboy::emulator::bus::Bus;
use gameboy::emulator::interrupt::{InterruptState, INT_SERIAL};
use gameboy::emulator::joypad::Joypad;
use gameboy::emulator::mbcs::mbc::Mbc;
use gameboy::emulator::mbcs::mbc1::MBC1;
use gameboy::emulator::ppu::Ppu;
use gameboy::emulator::timer::Timer;

fn banked_bus() -> Bus {
    let mut image = vec![0u8; 4 * 0x4000];
    for bank in 0..4 {
        image[bank * 0x4000] = 0xB0 + bank as u8;
    }
    Bus::new(
        Mbc::Mbc1(MBC1::new(image, 0x10000)),
        InterruptState::default(),
        Ppu::default(),
        Timer::default(),
        Joypad::default(),
    )
}

#[test]
fn bus_routes_each_region_to_its_owner() {
    let mut bus = banked_bus();
    assert_eq!(bus.read_byte(0x0000), 0xB0);
    assert_eq!(bus.read_byte(0x4000), 0xB1);
    bus.write_byte(0x2000, 0x02);
    assert_eq!(bus.read_byte(0x4000), 0xB2);

    bus.write_byte(0x8000, 0x81);
    bus.write_byte(0x9FFF, 0x82);
    assert_eq!(bus.ppu.vram[0], 0x81);
    assert_eq!(bus.ppu.vram[0x1FFF], 0x82);
    assert_eq!(bus.read_byte(0x9FFF), 0x82);

    bus.write_byte(0x0000, 0x0A);
    bus.write_byte(0xA000, 0xA1);
    assert_eq!(bus.read_byte(0xA000), 0xA1);

    bus.write_byte(0xC000, 0xC1);
    bus.write_byte(0xDFFF, 0xC2);
    assert_eq!(bus.wram[0], 0xC1);
    assert_eq!(bus.wram[0x1FFF], 0xC2);
    assert_eq!(bus.read_byte(0xC000), 0xC1);

    bus.write_byte(0xFE00, 0xE1);
    bus.write_byte(0xFE9F, 0xE2);
    assert_eq!(bus.ppu.oam[0], 0xE1);
    assert_eq!(bus.read_byte(0xFE9F), 0xE2);

    bus.write_byte(0xFF80, 0xF1);
    bus.write_byte(0xFFFE, 0xF2);
    assert_eq!(bus.hram[0], 0xF1);
    assert_eq!(bus.hram[126], 0xF2);
    assert_eq!(bus.read_byte(0xFFFE), 0xF2);

    bus.write_byte(0xFFFF, 0x1F);
    assert_eq!(bus.interrupt.interrupt_enable, 0x1F);
    assert_eq!(bus.read_byte(0xFFFF), 0x1F);
}

#[test]
fn echo_ram_and_the_gap_read_zero_and_drop_writes() {
    let mut bus = banked_bus();
    bus.write_byte(0xC000, 0x55);
    bus.write_byte(0xE000, 0x66);
    bus.write_byte(0xFDFF, 0x66);
    bus.write_byte(0xFEA0, 0x66);
    bus.write_byte(0xFEFF, 0x66);
    for address in [0xE000u16, 0xFDFF, 0xFEA0, 0xFEFF] {
        assert_eq!(bus.read_byte(address), 0);
    }
    assert_eq!(bus.read_byte(0xC000), 0x55);
    assert_eq!(bus.read_byte(0xDFFF), 0);
    assert_eq!(bus.read_byte(0xFE9F), 0);
}

#[test]
fn registers_read_back_what_was_written() {
    let mut bus = banked_bus();
    for address in [0xFF47u16, 0xFF48, 0xFF49, 0xFF43, 0xFF42, 0xFF4B, 0xFF4A, 0xFF45, 0xFFFF, 0xFF0F] {
        for value in [0x00u8, 0x01, 0x5A, 0xA5, 0xE0, 0xFF] {
            bus.write_byte(address, value);
            assert_eq!(bus.read_byte(address), value, "register {address:#06x}");
        }
    }
    for (address, value) in [(0xFF05u16, 0x12u8), (0xFF06, 0x34), (0xFF07, 0x07), (0xFF40, 0x91)] {
        bus.write_byte(address, value);
        assert_eq!(bus.read_byte(address), value);
    }
}

#[test]
fn read_only_registers_keep_their_value() {
    let mut bus = banked_bus();
    bus.write_byte(0xFF40, 0x80);
    bus.advance(456 * 3);
    assert_eq!(bus.read_byte(0xFF44), 3);
    bus.write_byte(0xFF44, 0x99);
    assert_eq!(bus.read_byte(0xFF44), 3);

    bus.ppu.stat = 0x06;
    bus.write_byte(0xFF41, 0xF9);
    assert_eq!(bus.read_byte(0xFF41), 0x7E);
    bus.write_byte(0xFF41, 0x00);
    assert_eq!(bus.read_byte(0xFF41), 0x06);
}

#[test]
fn unmapped_registers_read_zero_and_drop_writes() {
    let mut bus = banked_bus();
    for address in [0xFF01u16, 0xFF02, 0xFF10, 0xFF26, 0xFF46, 0xFF4C, 0xFF7F] {
        assert_eq!(bus.read_byte(address), 0);
    }
    bus.write_byte(0xFF10, 0x80);
    bus.write_byte(0xFF7F, 0xFF);
    assert_eq!(bus.read_byte(0xFF10), 0);
    assert_eq!(bus.read_byte(0xFF7F), 0);
}

#[test]
fn boot_rom_lies_over_the_first_page_until_switched_off() {
    let mut bus = banked_bus();
    assert_eq!(bus.read_byte(0xFF50), 1);
    let mut image = vec![0u8; 300];
    image[0] = 0x31;
    image[255] = 0x50;
    image[256] = 0x99;
    bus.load_bootrom(&image);
    assert_eq!(bus.read_byte(0xFF50), 0);
    assert_eq!(bus.read_byte(0x0000), 0x31);
    assert_eq!(bus.read_byte(0x00FF), 0x50);
    assert_eq!(bus.read_byte(0x0100), 0x00);
    bus.write_byte(0xFF50, 0);
    assert_eq!(bus.read_byte(0x0000), 0x31);
    bus.write_byte(0xFF50, 1);
    assert_eq!(bus.read_byte(0x0000), 0xB0);
    assert_eq!(bus.read_byte(0xFF50), 1);
    bus.write_byte(0xFF50, 0);
    assert_eq!(bus.read_byte(0x0000), 0xB0);
    assert_eq!(bus.bootrom[0], 0x31);
}

#[test]
fn short_boot_images_leave_the_rest_of_the_boot_rom() {
    let mut bus = banked_bus();
    bus.load_bootrom(&vec![0xAA; 0x100]);
    bus.load_bootrom(&vec![0x55, 0x56]);
    assert_eq!(bus.read_byte(0x0000), 0x55);
    assert_eq!(bus.read_byte(0x0001), 0x56);
    assert_eq!(bus.read_byte(0x0002), 0xAA);
}

#[test]
fn request_interrupt_raises_one_flag() {
    let mut bus = banked_bus();
    bus.write_byte(0xFF0F, 0x01);
    bus.request_interrupt(INT_SERIAL);
    assert_eq!(bus.read_byte(0xFF0F), 0x09);
    bus.request_interrupt(INT_SERIAL);
    assert_eq!(bus.read_byte(0xFF0F), 0x09);
}

#[test]
fn joypad_and_divider_are_reached_through_the_bus() {
    let mut bus = banked_bus();
    bus.write_byte(0xFF00, 0x20);
    bus.joypad.set_buttons(false, false, false, false, true, false, false, false);
    bus.advance(4);
    assert_eq!(bus.read_byte(0xFF00), 0xEB);
    bus.advance(252);
    assert_eq!(bus.read_byte(0xFF04), 1);
}
