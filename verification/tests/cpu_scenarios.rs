use gameboy::emulator::gameboy::Gameboy;

/// A plain 32 KiB cartridge with `program` at 0x0100, where execution
/// starts once the boot state is seeded.
fn machine(program: &[u8]) -> Gameboy {
    let mut rom = vec![0u8; 0x8000];
    rom[0x100..0x100 + program.len()].copy_from_slice(program);
    let mut gameboy = Gameboy::new(rom).unwrap();
    gameboy.no_bootrom_init();
    gameboy
}

fn flags(gameboy: &Gameboy) -> (bool, bool, bool, bool) {
    (gameboy.cpu.z(), gameboy.cpu.n(), gameboy.cpu.h(), gameboy.cpu.c())
}

#[test]
fn ld_a_u8_loads_the_byte_and_keeps_the_flags() {
    let mut gb = machine(&[0x3E, 0x42]);
    let f = gb.cpu.f;
    assert!(gb.try_tick());
    assert_eq!(gb.cpu.pc, 0x0102);
    assert_eq!(gb.cpu.a, 0x42);
    assert_eq!(gb.cpu.f, f);
    assert_eq!(gb.accum_cycle, 8);
}

#[test]
fn add_a_b_sets_half_carry() {
    let mut gb = machine(&[0x80]);
    gb.cpu.a = 0x0F;
    gb.cpu.b = 0x01;
    assert!(gb.try_tick());
    assert_eq!(gb.cpu.a, 0x10);
    assert_eq!(flags(&gb), (false, false, true, false));
    assert_eq!(gb.cpu.pc, 0x0101);
}

#[test]
fn add_a_b_wraps_to_zero_with_both_carries() {
    let mut gb = machine(&[0x80]);
    gb.cpu.a = 0xFF;
    gb.cpu.b = 0x01;
    assert!(gb.try_tick());
    assert_eq!(gb.cpu.a, 0x00);
    assert_eq!(flags(&gb), (true, false, true, true));
}

#[test]
fn add_hl_bc_carries_out_of_bit_11_and_keeps_z() {
    for z in [false, true] {
        let mut gb = machine(&[0x09]);
        gb.cpu.set_hl(0x0FFF);
        gb.cpu.set_bc(0x0001);
        gb.cpu.set_flags(z, true, false, true);
        assert!(gb.try_tick());
        assert_eq!(gb.cpu.hl(), 0x1000);
        assert_eq!(flags(&gb), (z, false, true, false));
    }
}

#[test]
fn ld_hl_sp_minus_one_sets_both_carries() {
    let mut gb = machine(&[0xF8, 0xFF]);
    gb.cpu.sp = 0x0001;
    assert!(gb.try_tick());
    assert_eq!(gb.cpu.hl(), 0x0000);
    assert_eq!(flags(&gb), (false, false, true, true));
    assert_eq!(gb.cpu.sp, 0x0001);
    assert_eq!(gb.cpu.pc, 0x0102);
}

#[test]
fn daa_after_add_makes_decimal_ninety() {
    let mut gb = machine(&[0x87, 0x27]);
    gb.cpu.a = 0x45;
    assert!(gb.try_tick());
    assert_eq!(gb.cpu.a, 0x8A);
    assert!(!gb.cpu.h());
    assert!(gb.try_tick());
    assert_eq!(gb.cpu.a, 0x90);
    assert!(!gb.cpu.z());
    assert!(!gb.cpu.c());
}

#[test]
fn ret_pops_the_program_counter() {
    let mut gb = machine(&[0xC9]);
    gb.cpu.sp = 0xFFFC;
    gb.bus.write_byte(0xFFFC, 0x34);
    gb.bus.write_byte(0xFFFD, 0x12);
    assert!(gb.try_tick());
    assert_eq!(gb.cpu.pc, 0x1234);
    assert_eq!(gb.cpu.sp, 0xFFFE);
    assert_eq!(gb.accum_cycle, 16);
}
