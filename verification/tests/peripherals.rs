use gameboy::emulator::bus::Bus;
use gameboy::emulator::interrupt::{InterruptState, INT_JOYPAD, INT_LCD, INT_TIMER, INT_VBLANK};
use gameboy::emulator::joypad::Joypad;
use gameboy::emulator::mbcs::mbc::Mbc;
use gameboy::emulator::mbcs::rom::Rom;
use gameboy::emulator::ppu::{Ppu, PpuMode};
use gameboy::emulator::timer::Timer;

fn plain_bus() -> Bus {
    Bus::new(
        Mbc::Rom(Rom::new(vec![0u8; 0x8000])),
        InterruptState::default(),
        Ppu::default(),
        Timer::default(),
        Joypad::default(),
    )
}

fn flag(interrupt: &InterruptState, source: u8) -> bool {
    (interrupt.interrupt_flag >> source) & 1 == 1
}

#[test]
fn timer_counts_after_exactly_sixteen_cycles_on_the_bit_three_tap() {
    let mut timer = Timer::default();
    let mut interrupt = InterruptState::default();
    timer.tac = 0x05;
    timer.update(15, &mut interrupt);
    assert_eq!(timer.tima, 0);
    timer.update(1, &mut interrupt);
    assert_eq!(timer.tima, 1);
    assert_eq!(interrupt.interrupt_flag, 0);
}

#[test]
fn timer_counts_the_same_however_the_cycles_are_dealt() {
    let mut whole = Timer::default();
    let mut parts = Timer::default();
    let mut interrupt = InterruptState::default();
    whole.tac = 0x05;
    parts.tac = 0x05;
    whole.update(1000, &mut interrupt);
    let mut left = 1000;
    for step in [4, 8, 12, 20, 24, 4, 16] {
        parts.update(step, &mut interrupt);
        left -= step;
    }
    parts.update(left, &mut interrupt);
    assert_eq!(whole.tima, 62);
    assert_eq!(parts.tima, whole.tima);
    assert_eq!(parts.div(), whole.div());
    assert_eq!(whole.div(), 3);
}

#[test]
fn timer_overflow_reloads_from_tma_and_requests_the_interrupt() {
    let mut timer = Timer::default();
    let mut interrupt = InterruptState::default();
    timer.tac = 0x05;
    timer.tima = 0xFF;
    timer.tma = 0x42;
    timer.update(16, &mut interrupt);
    assert_eq!(timer.tima, 0x42);
    assert!(flag(&interrupt, INT_TIMER));
    assert_eq!(interrupt.interrupt_flag, 0x04);
}

#[test]
fn timer_taps_follow_the_two_low_bits_of_tac() {
    for (tac, period) in [(0x04u8, 1024), (0x05, 16), (0x06, 64), (0x07, 256)] {
        let mut timer = Timer::default();
        let mut interrupt = InterruptState::default();
        timer.tac = tac;
        timer.update(period - 1, &mut interrupt);
        assert_eq!(timer.tima, 0, "tac {tac:#x}");
        timer.update(1, &mut interrupt);
        assert_eq!(timer.tima, 1, "tac {tac:#x}");
    }
}

#[test]
fn timer_stands_still_while_disabled_or_given_no_time() {
    let mut timer = Timer::default();
    let mut interrupt = InterruptState::default();
    timer.tac = 0x01;
    timer.update(4096, &mut interrupt);
    assert_eq!(timer.tima, 0);
    assert_eq!(timer.div(), 16);
    timer.update(-5, &mut interrupt);
    timer.update(0, &mut interrupt);
    assert_eq!(timer.div(), 16);
}

#[test]
fn div_reads_zero_after_any_write() {
    let mut bus = plain_bus();
    bus.timer.update(5000, &mut bus.interrupt);
    assert_eq!(bus.read_byte(0xFF04), 19);
    for value in [0x00u8, 0x5A, 0xFF] {
        bus.timer.update(300, &mut bus.interrupt);
        bus.write_byte(0xFF04, value);
        assert_eq!(bus.read_byte(0xFF04), 0);
        assert_eq!(bus.timer.div, 0);
    }
}

#[test]
fn interrupt_state_tells_requested_and_pending() {
    let mut interrupt = InterruptState::default();
    assert!(!interrupt.have_pending());
    interrupt.request(INT_TIMER);
    assert_eq!(interrupt.interrupt_flag, 0x04);
    assert!(!interrupt.have_pending());
    assert!(!interrupt.is_requested(INT_TIMER));
    interrupt.interrupt_enable = 0x04;
    assert!(interrupt.have_pending());
    assert!(interrupt.is_requested(INT_TIMER));
    assert!(!interrupt.is_requested(INT_VBLANK));
    interrupt.interrupt_enable = 0xE0;
    interrupt.interrupt_flag = 0xE0;
    assert!(!interrupt.have_pending());
}

#[test]
fn joypad_shows_the_selected_group_and_requests_on_a_falling_line() {
    let mut joypad = Joypad::default();
    let mut interrupt = InterruptState::default();
    joypad.write_joypad(0xFF);
    joypad.update(&mut interrupt);
    assert_eq!(joypad.read_joypad(), 0xFF);
    assert_eq!(interrupt.interrupt_flag, 0);

    joypad.write_joypad(0x10);
    joypad.update(&mut interrupt);
    assert_eq!(joypad.read_joypad(), 0xDF);
    joypad.set_buttons(true, false, false, false, false, false, false, false);
    joypad.update(&mut interrupt);
    assert_eq!(joypad.read_joypad(), 0xD7);
    assert!(flag(&interrupt, INT_JOYPAD));
    assert_eq!(interrupt.interrupt_flag, 0x10);

    interrupt.interrupt_flag = 0;
    joypad.update(&mut interrupt);
    assert_eq!(interrupt.interrupt_flag, 0);

    joypad.write_joypad(0x20);
    joypad.update(&mut interrupt);
    assert_eq!(joypad.read_joypad(), 0xEF);
    joypad.set_buttons(true, false, false, false, false, true, false, true);
    joypad.update(&mut interrupt);
    assert_eq!(joypad.read_joypad(), 0xE6);
    assert_eq!(interrupt.interrupt_flag, 0x10);
}

#[test]
fn joypad_write_takes_only_the_two_select_bits() {
    let mut joypad = Joypad::default();
    let mut interrupt = InterruptState::default();
    joypad.write_joypad(0x30);
    joypad.update(&mut interrupt);
    joypad.write_joypad(0xCF);
    assert_eq!(joypad.joypad_byte & 0x30, 0x00);
    assert_eq!(joypad.joypad_byte & 0x0F, 0x0F);
    joypad.update(&mut interrupt);
    joypad.set_buttons(false, false, true, false, false, false, false, true);
    joypad.update(&mut interrupt);
    assert_eq!(joypad.read_joypad(), 0xCE);
}

#[test]
fn ppu_draws_a_clean_frame_in_shade_zero() {
    let mut ppu = Ppu::default();
    let mut interrupt = InterruptState::default();
    ppu.lcdc = 0x91;
    ppu.bgp = 0xE4;
    for pixel in ppu.frame_buffer.iter_mut() {
        *pixel = 3;
    }
    let mut spent = 0;
    while spent < 70224 {
        ppu.update(4, &mut interrupt);
        spent += 4;
    }
    assert!(ppu.finish_frame);
    assert_eq!(ppu.ly(), 0);
    assert!(ppu.frame_buffer.iter().all(|&pixel| pixel == 0));
    assert!(flag(&interrupt, INT_VBLANK));
}

#[test]
fn ppu_goes_through_the_phases_of_a_line_on_time() {
    let mut ppu = Ppu::default();
    let mut interrupt = InterruptState::default();
    ppu.lcdc = 0x80;
    ppu.update(79, &mut interrupt);
    assert_eq!(ppu.mode, PpuMode::OAM_SCAN);
    assert_eq!(ppu.stat & 3, 2);
    ppu.update(1, &mut interrupt);
    assert_eq!(ppu.mode, PpuMode::DRAW);
    assert_eq!(ppu.stat & 3, 3);
    assert_eq!(ppu.current_cycle, 0);
    ppu.update(172, &mut interrupt);
    assert_eq!(ppu.mode, PpuMode::HBLANK);
    assert_eq!(ppu.stat & 3, 0);
    ppu.update(203, &mut interrupt);
    assert_eq!(ppu.ly(), 0);
    ppu.update(1, &mut interrupt);
    assert_eq!(ppu.ly(), 1);
    assert_eq!(ppu.mode, PpuMode::OAM_SCAN);
    assert_eq!(ppu.stat & 3, 2);
    ppu.update(456 * 143, &mut interrupt);
    assert_eq!(ppu.ly(), 144);
    assert_eq!(ppu.mode, PpuMode::VBLANK);
    assert_eq!(ppu.stat & 3, 1);
    assert!(!ppu.finish_frame);
    ppu.update(4560, &mut interrupt);
    assert_eq!(ppu.ly(), 0);
    assert_eq!(ppu.mode, PpuMode::OAM_SCAN);
    assert!(ppu.finish_frame);
    assert_eq!(interrupt.interrupt_flag, 0x01);
}

#[test]
fn ppu_reaches_line_144_once_between_two_finished_frames() {
    let mut ppu = Ppu::default();
    let mut interrupt = InterruptState::default();
    ppu.lcdc = 0x91;
    let mut entries = 0;
    let mut frames = 0;
    let mut entries_at_frame = Vec::new();
    while frames < 4 {
        let before = ppu.ly();
        ppu.update(12, &mut interrupt);
        if before == 143 && ppu.ly() == 144 {
            entries += 1;
        }
        if ppu.finish_frame {
            ppu.finish_frame = false;
            frames += 1;
            entries_at_frame.push(entries);
        }
        assert!(ppu.ly() <= 153);
    }
    assert_eq!(entries_at_frame, vec![1, 2, 3, 4]);
}

#[test]
fn ppu_requests_stat_interrupts_only_where_stat_allows() {
    let mut quiet = Ppu::default();
    let mut interrupt = InterruptState::default();
    quiet.lcdc = 0x80;
    quiet.lyc = 200;
    quiet.update(456 * 10, &mut interrupt);
    assert_eq!(interrupt.interrupt_flag, 0);

    let mut hblank = Ppu::default();
    hblank.lcdc = 0x80;
    hblank.lyc = 200;
    hblank.stat = 0x08;
    hblank.update(251, &mut interrupt);
    assert_eq!(interrupt.interrupt_flag, 0);
    hblank.update(1, &mut interrupt);
    assert!(flag(&interrupt, INT_LCD));

    let mut coincidence = Ppu::default();
    let mut interrupt = InterruptState::default();
    coincidence.lcdc = 0x80;
    coincidence.lyc = 2;
    coincidence.stat = 0x40;
    coincidence.update(456, &mut interrupt);
    assert_eq!(coincidence.stat & 0x04, 0);
    assert_eq!(interrupt.interrupt_flag, 0);
    coincidence.update(456, &mut interrupt);
    assert_eq!(coincidence.stat & 0x04, 0x04);
    assert_eq!(interrupt.interrupt_flag, 0x02);
    coincidence.update(456, &mut interrupt);
    assert_eq!(coincidence.stat & 0x04, 0);
}

#[test]
fn ppu_is_held_on_line_zero_while_switched_off() {
    let mut ppu = Ppu::default();
    let mut interrupt = InterruptState::default();
    ppu.lcdc = 0x80;
    ppu.update(456 * 20 + 100, &mut interrupt);
    assert_eq!(ppu.ly(), 20);
    ppu.lcdc = 0x00;
    ppu.stat = 0x7B;
    ppu.update(4, &mut interrupt);
    assert_eq!(ppu.ly(), 0);
    assert_eq!(ppu.mode, PpuMode::HBLANK);
    assert_eq!(ppu.current_cycle, 0);
    assert_eq!(ppu.stat, 0x78);
    ppu.update(70224, &mut interrupt);
    assert_eq!(ppu.ly(), 0);
    assert_eq!(interrupt.interrupt_flag, 0);
}

#[test]
fn ppu_draws_the_background_through_the_palette() {
    let mut ppu = Ppu::default();
    ppu.lcdc = 0x91;
    ppu.bgp = 0x1B;
    // Tile 1, line 0: colours 0 1 2 3 0 1 2 3 from the left.
    ppu.write_vram(0x8010, 0b0101_0101);
    ppu.write_vram(0x8011, 0b0011_0011);
    // The map shows tile 1 in the second column of the first row.
    ppu.write_vram(0x9801, 1);
    let colours = ppu.draw_lcd();
    assert_eq!(&colours[8..16], &[0, 1, 2, 3, 0, 1, 2, 3]);
    assert_eq!(&ppu.frame_buffer[8..16], &[3, 2, 1, 0, 3, 2, 1, 0]);
    assert!(colours[..8].iter().all(|&c| c == 0));
    assert!(ppu.frame_buffer[..8].iter().all(|&p| p == 3));
    assert!(ppu.frame_buffer[160..].iter().all(|&p| p == 0));
}

#[test]
fn ppu_scrolls_the_background_and_reads_signed_tile_numbers() {
    let mut ppu = Ppu::default();
    ppu.lcdc = 0x81;
    ppu.bgp = 0xE4;
    ppu.scx = 3;
    ppu.scy = 9;
    // Tile 0xFF stands 16 bytes below 0x9000; its line 1 is all colour 3.
    ppu.write_vram(0x8FF2, 0xFF);
    ppu.write_vram(0x8FF3, 0xFF);
    // Row 1 of the map, column 0.
    ppu.write_vram(0x9820, 0xFF);
    let colours = ppu.draw_lcd();
    assert_eq!(&colours[..6], &[3, 3, 3, 3, 3, 0]);
    assert_eq!(&ppu.frame_buffer[..6], &[3, 3, 3, 3, 3, 0]);
}

#[test]
fn ppu_fills_the_line_with_zero_while_the_background_is_off() {
    let mut ppu = Ppu::default();
    ppu.lcdc = 0x90;
    ppu.bgp = 0xFF;
    for pixel in ppu.frame_buffer.iter_mut() {
        *pixel = 2;
    }
    let colours = ppu.draw_lcd();
    assert!(colours.iter().all(|&c| c == 0));
    assert!(ppu.frame_buffer[..160].iter().all(|&p| p == 0));
    assert!(ppu.frame_buffer[160..].iter().all(|&p| p == 2));
}

#[test]
fn ppu_draws_the_window_by_its_own_line_count() {
    let mut ppu = Ppu::default();
    ppu.lcdc = 0xF1;
    ppu.bgp = 0xE4;
    ppu.wx = 7 + 80;
    ppu.wy = 0;
    // Tile 2, line 0: all colour 2. The window map at 0x9C00 shows it.
    ppu.write_vram(0x8020, 0x00);
    ppu.write_vram(0x8021, 0xFF);
    for column in 0..32u16 {
        ppu.write_vram(0x9C00 + column, 2);
    }
    let colours = ppu.draw_lcd();
    assert!(colours[..80].iter().all(|&c| c == 0));
    assert!(colours[80..].iter().all(|&c| c == 2));
    assert_eq!(ppu.window_line, 1);
    ppu.lcdc = 0xD1;
    let _ = ppu.draw_lcd();
    assert_eq!(ppu.window_line, 1);
}

#[test]
fn ppu_chooses_at_most_ten_sprites_and_orders_them() {
    let mut ppu = Ppu::default();
    ppu.lcdc = 0x83;
    for index in 0..12u16 {
        ppu.write_oam(0xFE00 + index * 4, 16);
        ppu.write_oam(0xFE00 + index * 4 + 1, 8 + (index as u8 % 3) * 8);
    }
    // One that is parked and one that is off the line.
    ppu.write_oam(0xFE00 + 1, 0);
    ppu.write_oam(0xFE00 + 4, 40);
    ppu.oam_scan();
    assert_eq!(ppu.oam_buffer, vec![44, 32, 20, 8, 40, 28, 16, 36, 24, 12]);

    ppu.write_oam(0xFE00 + 1, 8);
    ppu.write_oam(0xFE00 + 4, 16);
    ppu.oam_scan();
    assert_eq!(ppu.oam_buffer.len(), 10);
    assert_eq!(ppu.oam_buffer, vec![32, 20, 8, 28, 16, 4, 36, 24, 12, 0]);
}

#[test]
fn ppu_picks_tall_sprites_over_sixteen_lines() {
    let mut ppu = Ppu::default();
    let mut interrupt = InterruptState::default();
    ppu.lcdc = 0x80;
    ppu.write_oam(0xFE00, 16);
    ppu.write_oam(0xFE01, 8);
    ppu.update(456 * 8, &mut interrupt);
    assert_eq!(ppu.ly(), 8);
    ppu.oam_scan();
    assert!(ppu.oam_buffer.is_empty());
    ppu.lcdc = 0x84;
    ppu.oam_scan();
    assert_eq!(ppu.oam_buffer, vec![0]);
}

#[test]
fn ppu_draws_sprites_with_priority_flips_and_palettes() {
    let mut ppu = Ppu::default();
    ppu.lcdc = 0x93;
    ppu.bgp = 0xE4;
    ppu.obp0 = 0xE4;
    ppu.obp1 = 0x1B;
    // Tile 1, line 0: colour 1 in the left half, colour 0 in the right.
    ppu.write_vram(0x8010, 0xF0);
    ppu.write_vram(0x8011, 0x00);
    // Tile 2, line 0: colour 2 everywhere.
    ppu.write_vram(0x8020, 0x00);
    ppu.write_vram(0x8021, 0xFF);
    // Tile 3, line 0: background colour 3 everywhere; the map shows it in column 4.
    ppu.write_vram(0x8030, 0xFF);
    ppu.write_vram(0x8031, 0xFF);
    ppu.write_vram(0x9804, 3);
    // Sprite 0 at x = 0, tile 1; sprite 1 at the same place, tile 2.
    for (index, tile, x, attributes) in
        [(0u16, 1u8, 8u8, 0x00u8), (1, 2, 8, 0x00), (2, 1, 24, 0x20), (3, 2, 40, 0x80), (4, 2, 48, 0x10)]
    {
        ppu.write_oam(0xFE00 + index * 4, 16);
        ppu.write_oam(0xFE00 + index * 4 + 1, x);
        ppu.write_oam(0xFE00 + index * 4 + 2, tile);
        ppu.write_oam(0xFE00 + index * 4 + 3, attributes);
    }
    ppu.oam_scan();
    let colours = ppu.draw_lcd();
    ppu.draw_lcd_sprite(colours);
    // The earlier sprite covers the later one where it is not transparent.
    assert_eq!(&ppu.frame_buffer[0..8], &[1, 1, 1, 1, 2, 2, 2, 2]);
    // Mirrored: the coloured half is on the right.
    assert_eq!(&ppu.frame_buffer[16..24], &[0, 0, 0, 0, 1, 1, 1, 1]);
    // Behind the background: hidden where the background is not colour 0.
    assert_eq!(&ppu.frame_buffer[32..40], &[3, 3, 3, 3, 3, 3, 3, 3]);
    // The second palette.
    assert_eq!(&ppu.frame_buffer[40..48], &[1, 1, 1, 1, 1, 1, 1, 1]);
    assert!(ppu.frame_buffer.iter().all(|&p| p <= 3));
}

#[test]
fn ppu_leaves_sprites_out_while_they_are_switched_off() {
    let mut ppu = Ppu::default();
    ppu.lcdc = 0x91;
    ppu.obp0 = 0xFF;
    ppu.write_vram(0x8010, 0xFF);
    ppu.write_oam(0xFE00, 16);
    ppu.write_oam(0xFE01, 8);
    ppu.write_oam(0xFE02, 1);
    ppu.oam_scan();
    assert_eq!(ppu.oam_buffer, vec![0]);
    let colours = ppu.draw_lcd();
    ppu.draw_lcd_sprite(colours);
    assert!(ppu.frame_buffer[..160].iter().all(|&p| p == 0));
}

#[test]
fn dma_fills_sprite_memory_after_640_cycles() {
    let mut bus = plain_bus();
    for offset in 0..160u16 {
        bus.write_byte(0xC100 + offset, offset as u8 ^ 0x5A);
    }
    bus.write_byte(0xFF46, 0xC1);
    assert!(bus.ppu.dma_transfer_active);
    bus.update_dma_transfer(636);
    assert!(bus.ppu.dma_transfer_active);
    assert_eq!(bus.read_byte(0xFE00), 0);
    bus.update_dma_transfer(4);
    assert!(!bus.ppu.dma_transfer_active);
    for offset in 0..160u16 {
        assert_eq!(bus.read_byte(0xFE00 + offset), offset as u8 ^ 0x5A);
    }
    bus.write_byte(0xC100, 0x77);
    bus.update_dma_transfer(1000);
    assert_eq!(bus.read_byte(0xFE00), 0x5A);
}

#[test]
fn dma_copies_from_video_memory_and_restarts_on_a_second_write() {
    let mut bus = plain_bus();
    for offset in 0..160u16 {
        bus.write_byte(0x8000 + offset, 0xA0 | (offset as u8 & 0x0F));
        bus.write_byte(0xC000 + offset, 0x11);
    }
    bus.write_byte(0xFF46, 0xC0);
    bus.update_dma_transfer(600);
    bus.write_byte(0xFF46, 0x80);
    bus.update_dma_transfer(600);
    assert_eq!(bus.read_byte(0xFE05), 0);
    bus.update_dma_transfer(40);
    assert_eq!(bus.read_byte(0xFE05), 0xA5);
    assert_eq!(bus.read_byte(0xFE9F), 0xAF);
}

#[test]
fn peripherals_advance_in_order_and_share_the_interrupt_flags() {
    let mut bus = plain_bus();
    bus.write_byte(0xFF07, 0x05);
    bus.write_byte(0xFF05, 0xFF);
    bus.write_byte(0xFF06, 0x10);
    bus.write_byte(0xFF40, 0x80);
    bus.advance(16);
    assert_eq!(bus.read_byte(0xFF05), 0x10);
    assert_eq!(bus.read_byte(0xFF0F), 0x04);
    assert_eq!(bus.ppu.current_cycle, 16);
    assert_eq!(bus.read_byte(0xFF00), 0xCF);
}

#[test]
fn ppu_ends_up_the_same_however_the_cycles_are_dealt() {
    let mut whole = Ppu::default();
    let mut parts = Ppu::default();
    let mut whole_flags = InterruptState::default();
    let mut parts_flags = InterruptState::default();
    for ppu in [&mut whole, &mut parts] {
        ppu.lcdc = 0x93;
        ppu.bgp = 0xE4;
        ppu.obp0 = 0x1B;
        ppu.stat = 0x78;
        ppu.lyc = 77;
        ppu.write_vram(0x8000, 0x3C);
        ppu.write_vram(0x8001, 0x7E);
        ppu.write_oam(0xFE00, 50);
        ppu.write_oam(0xFE01, 30);
    }
    whole.update(100_000, &mut whole_flags);
    let mut left = 100_000;
    for step in [4, 8, 12, 16, 20, 24, 456, 80, 172, 204, 4560, 1, 3, 70224] {
        parts.update(step, &mut parts_flags);
        left -= step;
    }
    parts.update(left, &mut parts_flags);
    assert_eq!(parts.ly(), whole.ly());
    assert_eq!(parts.mode, whole.mode);
    assert_eq!(parts.current_cycle, whole.current_cycle);
    assert_eq!(parts.stat, whole.stat);
    assert_eq!(parts.oam_buffer, whole.oam_buffer);
    assert_eq!(parts.window_line, whole.window_line);
    assert_eq!(parts.finish_frame, whole.finish_frame);
    assert!(parts.frame_buffer == whole.frame_buffer);
    assert_eq!(parts_flags.interrupt_flag, whole_flags.interrupt_flag);
    assert_eq!(whole.ly(), (100_000 / 456 % 154) as u8);
    assert_eq!(whole_flags.interrupt_flag, 0x03);
}

#[test]
fn stat_names_the_phase_from_the_first_update_on() {
    let mut ppu = Ppu::default();
    let mut interrupt = InterruptState::default();
    ppu.lcdc = 0x80;
    assert_eq!(ppu.stat, 0);
    for call in 1..=19 {
        ppu.update(4, &mut interrupt);
        assert_eq!(ppu.mode, PpuMode::OAM_SCAN, "call {call}");
        assert_eq!(ppu.stat & 0x03, 2, "call {call}");
        assert_eq!(ppu.current_cycle, 4 * call);
    }
    ppu.update(4, &mut interrupt);
    assert_eq!(ppu.mode, PpuMode::DRAW);
    assert_eq!(ppu.stat & 0x03, 3);
    assert_eq!(ppu.ly(), 0);

    // An update that adds no time names the phase all the same, and leaves
    // the rest of STAT alone.
    let mut idle = Ppu::default();
    idle.lcdc = 0x80;
    idle.stat = 0x7C;
    idle.update(0, &mut interrupt);
    assert_eq!(idle.stat, 0x7E);
    idle.stat = 0x79;
    idle.update(-3, &mut interrupt);
    assert_eq!(idle.stat, 0x7A);
    assert_eq!(idle.current_cycle, 0);
    assert_eq!(interrupt.interrupt_flag, 0);
}

#[test]
fn stat_read_through_the_bus_names_the_phase_after_the_first_tick() {
    let mut rom = vec![0u8; 0x8000];
    // LDH A,($41) twice.
    rom[0x100..0x104].copy_from_slice(&[0xF0, 0x41, 0xF0, 0x41]);
    let mut gb = gameboy::emulator::gameboy::Gameboy::new(rom).unwrap();
    gb.no_bootrom_init();
    assert!(gb.try_tick());
    assert_eq!(gb.bus.ppu.mode, PpuMode::OAM_SCAN);
    assert_eq!(gb.bus.read_byte(0xFF41) & 0x03, 2);
    assert!(gb.try_tick());
    assert_eq!(gb.cpu.a & 0x03, 2);
}
