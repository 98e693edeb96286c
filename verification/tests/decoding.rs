use gameboy::emulator::bus::Bus;
use gameboy::emulator::cpu::Cpu;
use gameboy::emulator::instructions::inst_group::InstGroup;
use gameboy::emulator::instructions::opcode::Opcode;
use gameboy::emulator::instructions::opcode_table::{get_opcode, get_prefixed_opcode, InvalidOpcode};
use gameboy::emulator::instructions::operand::Operands;
use gameboy::emulator::interrupt::InterruptState;
use gameboy::emulator::joypad::Joypad;
use gameboy::emulator::mbcs::mbc::Mbc;
use gameboy::emulator::mbcs::rom::Rom;
use gameboy::emulator::ppu::Ppu;
use gameboy::emulator::text::word_text;
use gameboy::emulator::timer::Timer;
use gameboy::gui::disassembler::disassemble_rom;
use gameboy::gui::widgets::instructions_widget::selected_instruction;
use gameboy::gui::widgets::memory_widget::MemoryWidgetState;
use gameboy::gui::widgets::registers_widget::RegistersWidget;
use gameboy::gui::widgets::stacks_widget::StackWidgetState;

fn bus_with(program: &[u8]) -> Bus {
    let mut image = vec![0u8; 0x8000];
    image[..program.len()].copy_from_slice(program);
    Bus::new(
        Mbc::Rom(Rom::new(image)),
        InterruptState::default(),
        Ppu::default(),
        Timer::default(),
        Joypad::default(),
    )
}

fn entry(byte: u8) -> Opcode {
    get_opcode(byte).ok().unwrap()
}

fn check(
    opcode: &Opcode,
    group: InstGroup,
    mnemonic: &str,
    length: usize,
    cycle: &[i32],
    operand1: Option<Operands>,
    operand2: Option<Operands>,
) {
    assert_eq!(opcode.group, group);
    assert_eq!(opcode.mnemonic, mnemonic);
    assert_eq!(opcode.length, length);
    assert_eq!(opcode.cycle, cycle);
    assert_eq!(opcode.operand1, operand1);
    assert_eq!(opcode.operand2, operand2);
}

#[test]
fn base_table_decodes_loads() {
    check(&entry(0x00), InstGroup::Nop, "NOP", 1, &[4], None, None);
    check(&entry(0x01), InstGroup::Load16, "LD", 3, &[12], Some(Operands::BC), Some(Operands::U16));
    check(&entry(0x08), InstGroup::Load16, "LD", 3, &[20], Some(Operands::AddrU16), Some(Operands::SP));
    check(&entry(0x0A), InstGroup::Load8, "LD", 1, &[8], Some(Operands::A), Some(Operands::AddrBC));
    check(&entry(0x22), InstGroup::Load8, "LD", 1, &[8], Some(Operands::AddrHLI), Some(Operands::A));
    check(&entry(0x3A), InstGroup::Load8, "LD", 1, &[8], Some(Operands::A), Some(Operands::AddrHLD));
    check(&entry(0x36), InstGroup::Load8, "LD", 2, &[12], Some(Operands::AddrHL), Some(Operands::U8));
    check(&entry(0x3E), InstGroup::Load8, "LD", 2, &[8], Some(Operands::A), Some(Operands::U8));
    check(&entry(0x40), InstGroup::Load8, "LD", 1, &[4], Some(Operands::B), Some(Operands::B));
    check(&entry(0x7E), InstGroup::Load8, "LD", 1, &[8], Some(Operands::A), Some(Operands::AddrHL));
    check(&entry(0x75), InstGroup::Load8, "LD", 1, &[8], Some(Operands::AddrHL), Some(Operands::L));
    check(&entry(0xE0), InstGroup::Load8, "LD", 2, &[12], Some(Operands::AddrFF00_U8), Some(Operands::A));
    check(&entry(0xF2), InstGroup::Load8, "LD", 1, &[8], Some(Operands::A), Some(Operands::AddrFF00_C));
    check(&entry(0xEA), InstGroup::Load8, "LD", 3, &[16], Some(Operands::AddrU16), Some(Operands::A));
    check(&entry(0xF8), InstGroup::Load16, "LD", 2, &[12], Some(Operands::HL), Some(Operands::SP_i8));
    check(&entry(0xF9), InstGroup::Load16, "LD", 1, &[8], Some(Operands::SP), Some(Operands::HL));
}

#[test]
fn base_table_decodes_arithmetic() {
    check(&entry(0x04), InstGroup::Inc8, "INC", 1, &[4], Some(Operands::B), None);
    check(&entry(0x35), InstGroup::Dec8, "DEC", 1, &[12], Some(Operands::AddrHL), None);
    check(&entry(0x09), InstGroup::Add16, "ADD", 1, &[8], Some(Operands::HL), Some(Operands::BC));
    check(&entry(0x33), InstGroup::Inc16, "INC", 1, &[8], Some(Operands::SP), None);
    check(&entry(0x1B), InstGroup::Dec16, "DEC", 1, &[8], Some(Operands::DE), None);
    check(&entry(0x80), InstGroup::Add8, "ADD", 1, &[4], Some(Operands::A), Some(Operands::B));
    check(&entry(0x8E), InstGroup::Adc, "ADC", 1, &[8], Some(Operands::A), Some(Operands::AddrHL));
    check(&entry(0x97), InstGroup::Sub, "SUB", 1, &[4], Some(Operands::A), None);
    check(&entry(0x99), InstGroup::Sbc, "SBC", 1, &[4], Some(Operands::A), Some(Operands::C));
    check(&entry(0xA2), InstGroup::And, "AND", 1, &[4], Some(Operands::D), None);
    check(&entry(0xAB), InstGroup::Xor, "XOR", 1, &[4], Some(Operands::E), None);
    check(&entry(0xB4), InstGroup::Or, "OR", 1, &[4], Some(Operands::H), None);
    check(&entry(0xBD), InstGroup::Cp, "CP", 1, &[4], Some(Operands::L), None);
    check(&entry(0xC6), InstGroup::Add8, "ADD", 2, &[8], Some(Operands::A), Some(Operands::U8));
    check(&entry(0xFE), InstGroup::Cp, "CP", 2, &[8], Some(Operands::U8), None);
    check(&entry(0xE8), InstGroup::Add16, "ADD", 2, &[16], Some(Operands::SP), Some(Operands::I8));
    check(&entry(0x07), InstGroup::Rlca, "RLCA", 1, &[4], None, None);
    check(&entry(0x0F), InstGroup::Rrca, "RRCA", 1, &[4], None, None);
    check(&entry(0x17), InstGroup::Rla, "RLA", 1, &[4], None, None);
    check(&entry(0x1F), InstGroup::Rra, "RRA", 1, &[4], None, None);
    check(&entry(0x27), InstGroup::Daa, "DAA", 1, &[4], None, None);
    check(&entry(0x2F), InstGroup::Cpl, "CPL", 1, &[4], None, None);
    check(&entry(0x37), InstGroup::Scf, "SCF", 1, &[4], None, None);
    check(&entry(0x3F), InstGroup::Ccf, "CCF", 1, &[4], None, None);
}

#[test]
fn base_table_decodes_control_flow() {
    check(&entry(0x10), InstGroup::Stop, "STOP", 1, &[4], None, None);
    check(&entry(0x18), InstGroup::Jr, "JR", 2, &[12], Some(Operands::I8), None);
    check(&entry(0x20), InstGroup::JrCc, "JR", 2, &[12, 8], Some(Operands::JR_NZ), Some(Operands::I8));
    check(&entry(0x38), InstGroup::JrCc, "JR", 2, &[12, 8], Some(Operands::JR_C), Some(Operands::I8));
    check(&entry(0x76), InstGroup::Halt, "HALT", 1, &[4], None, None);
    check(&entry(0xC0), InstGroup::RetCc, "RET", 1, &[20, 8], Some(Operands::JR_NZ), None);
    check(&entry(0xC1), InstGroup::Pop, "POP", 1, &[12], Some(Operands::BC), None);
    check(&entry(0xF1), InstGroup::Pop, "POP", 1, &[12], Some(Operands::AF), None);
    check(&entry(0xC2), InstGroup::JpCc, "JP", 3, &[16, 12], Some(Operands::JR_NZ), Some(Operands::U16));
    check(&entry(0xC3), InstGroup::Jp, "JP", 3, &[16], Some(Operands::U16), None);
    check(&entry(0xCC), InstGroup::CallCc, "CALL", 3, &[24, 12], Some(Operands::JR_Z), Some(Operands::U16));
    check(&entry(0xCD), InstGroup::Call, "CALL", 3, &[24], Some(Operands::U16), None);
    check(&entry(0xE5), InstGroup::Push, "PUSH", 1, &[16], Some(Operands::HL), None);
    check(&entry(0xC9), InstGroup::Ret, "RET", 1, &[16], None, None);
    check(&entry(0xD9), InstGroup::Reti, "RETI", 1, &[16], None, None);
    check(&entry(0xE9), InstGroup::JpHl, "JP", 1, &[4], Some(Operands::HL), None);
    check(&entry(0xF3), InstGroup::Di, "DI", 1, &[4], None, None);
    check(&entry(0xFB), InstGroup::Ei, "EI", 1, &[4], None, None);
    check(&entry(0xCB), InstGroup::Prefix, "PREFIX", 1, &[4], None, None);
    let vectors = [
        Operands::H00,
        Operands::H08,
        Operands::H10,
        Operands::H18,
        Operands::H20,
        Operands::H28,
        Operands::H30,
        Operands::H38,
    ];
    for (index, vector) in vectors.into_iter().enumerate() {
        check(&entry(0xC7 + 8 * index as u8), InstGroup::Rst, "RST", 1, &[16], Some(vector), None);
    }
}

#[test]
fn base_table_marks_eleven_bytes_as_illegal() {
    let illegal = [0xD3u8, 0xDB, 0xDD, 0xE3, 0xE4, 0xEB, 0xEC, 0xED, 0xF4, 0xFC, 0xFD];
    for byte in 0..=255u8 {
        match get_opcode(byte) {
            Ok(opcode) => {
                assert!(!illegal.contains(&byte), "{byte:#04x}");
                assert_eq!(opcode.opcode_byte, byte);
                assert!((1..=3).contains(&opcode.length));
                assert!(opcode.cycle.iter().all(|&c| (4..=24).contains(&c) && c % 4 == 0));
            }
            Err(error) => {
                assert!(illegal.contains(&byte), "{byte:#04x}");
                assert_eq!(error, InvalidOpcode(byte));
            }
        }
    }
}

#[test]
fn prefixed_table_decodes_by_bit_fields() {
    check(&get_prefixed_opcode(0x00), InstGroup::Rlc, "RLC", 2, &[8], Some(Operands::B), None);
    check(&get_prefixed_opcode(0x0E), InstGroup::Rrc, "RRC", 2, &[16], Some(Operands::AddrHL), None);
    check(&get_prefixed_opcode(0x11), InstGroup::Rl, "RL", 2, &[8], Some(Operands::C), None);
    check(&get_prefixed_opcode(0x1A), InstGroup::Rr, "RR", 2, &[8], Some(Operands::D), None);
    check(&get_prefixed_opcode(0x23), InstGroup::Sla, "SLA", 2, &[8], Some(Operands::E), None);
    check(&get_prefixed_opcode(0x2C), InstGroup::Sra, "SRA", 2, &[8], Some(Operands::H), None);
    check(&get_prefixed_opcode(0x35), InstGroup::Swap, "SWAP", 2, &[8], Some(Operands::L), None);
    check(&get_prefixed_opcode(0x3F), InstGroup::Srl, "SRL", 2, &[8], Some(Operands::A), None);
    check(&get_prefixed_opcode(0x46), InstGroup::Bit, "BIT", 2, &[12], Some(Operands::I(0)), Some(Operands::AddrHL));
    check(&get_prefixed_opcode(0x7F), InstGroup::Bit, "BIT", 2, &[8], Some(Operands::I(7)), Some(Operands::A));
    check(&get_prefixed_opcode(0x96), InstGroup::Res, "RES", 2, &[16], Some(Operands::I(2)), Some(Operands::AddrHL));
    check(&get_prefixed_opcode(0xFF), InstGroup::SetBit, "SET", 2, &[8], Some(Operands::I(7)), Some(Operands::A));
    for byte in 0..=255u8 {
        let opcode = get_prefixed_opcode(byte);
        assert_eq!(opcode.length, 2);
        assert_eq!(opcode.opcode_byte, byte);
    }
}

#[test]
fn operands_know_their_widths() {
    assert_eq!(Operands::NONE.get_byte_length(), 0);
    assert_eq!(Operands::A.get_byte_length(), 1);
    assert_eq!(Operands::AddrU16.get_byte_length(), 1);
    assert_eq!(Operands::I(3).get_byte_length(), 1);
    for wide in [Operands::AF, Operands::BC, Operands::DE, Operands::HL, Operands::SP, Operands::U16] {
        assert_eq!(wide.get_byte_length(), 2);
    }
    for inline in [Operands::AddrFF00_U8, Operands::SP_i8, Operands::U8, Operands::I8] {
        assert!(inline.is_resolvable());
        assert_eq!(inline.get_encoded_length(), 1);
    }
    for inline in [Operands::AddrU16, Operands::U16] {
        assert!(inline.is_resolvable());
        assert_eq!(inline.get_encoded_length(), 2);
    }
    for plain in [Operands::A, Operands::HL, Operands::AddrHL, Operands::JR_Z, Operands::H38, Operands::I(1)] {
        assert!(!plain.is_resolvable());
        assert_eq!(plain.get_encoded_length(), 0);
    }
}

#[test]
fn operands_are_written_as_in_a_listing() {
    assert_eq!(Operands::NONE.get_str_format(0x12, 0x3456), "");
    assert_eq!(Operands::A.get_str_format(0, 0), "A");
    assert_eq!(Operands::AF.get_str_format(0, 0), "AF");
    assert_eq!(Operands::AddrHLI.get_str_format(0, 0), "(HL+)");
    assert_eq!(Operands::AddrHLD.get_str_format(0, 0), "(HL-)");
    assert_eq!(Operands::AddrFF00_C.get_str_format(0, 0), "(FF00+C)");
    assert_eq!(Operands::AddrFF00_U8.get_str_format(0x4A, 0), "(FF00+$4a)");
    assert_eq!(Operands::AddrU16.get_str_format(0, 0xC0DE), "($c0de)");
    assert_eq!(Operands::SP_i8.get_str_format(0xFE, 0), "SP+$fe");
    assert_eq!(Operands::U8.get_str_format(0x07, 0), "$07");
    assert_eq!(Operands::I8.get_str_format(0x80, 0), "$80");
    assert_eq!(Operands::U16.get_str_format(0, 0x0100), "$0100");
    assert_eq!(Operands::JR_NZ.get_str_format(0, 0), "NZ");
    assert_eq!(Operands::JR_NC.get_str_format(0, 0), "NC");
    assert_eq!(Operands::H28.get_str_format(0, 0), "28H");
    assert_eq!(Operands::I(0).get_str_format(0, 0), "0");
    assert_eq!(Operands::I(7).get_str_format(0, 0), "7");
    assert_eq!(Operands::I(42).get_str_format(0, 0), "42");
    assert_eq!(Operands::I(205).get_str_format(0, 0), "205");
}

#[test]
fn instructions_are_written_as_in_a_listing() {
    assert_eq!(Cpu::disassemble_opcode(&entry(0x00), vec![]), "NOP");
    assert_eq!(Cpu::disassemble_opcode(&entry(0x01), vec![0x34, 0x12]), "LD BC, $1234");
    assert_eq!(Cpu::disassemble_opcode(&entry(0x20), vec![0xFE]), "JR NZ, $fe");
    assert_eq!(Cpu::disassemble_opcode(&entry(0xE0), vec![0x44]), "LD (FF00+$44), A");
    assert_eq!(Cpu::disassemble_opcode(&entry(0xEA), vec![0x00, 0xC0]), "LD ($c000), A");
    assert_eq!(Cpu::disassemble_opcode(&entry(0xF8), vec![0x05]), "LD HL, SP+$05");
    assert_eq!(Cpu::disassemble_opcode(&entry(0x80), vec![]), "ADD A, B");
    assert_eq!(Cpu::disassemble_opcode(&entry(0x90), vec![]), "SUB B");
    assert_eq!(Cpu::disassemble_opcode(&entry(0xE9), vec![]), "JP HL");
    assert_eq!(Cpu::disassemble_opcode(&entry(0xFF), vec![]), "RST 38H");
    assert_eq!(Cpu::disassemble_opcode(&entry(0xC4), vec![0x50, 0x01]), "CALL NZ, $0150");
    assert_eq!(Cpu::disassemble_opcode(&get_prefixed_opcode(0x7F), vec![0x7F]), "BIT 7, A");
    assert_eq!(Cpu::disassemble_opcode(&get_prefixed_opcode(0x36), vec![0x36]), "SWAP (HL)");
}

#[test]
fn rom_is_listed_up_to_the_end_of_the_first_bank() {
    let mut program = vec![0x3E, 0x42, 0xCB, 0x7F, 0xD3, 0xC3, 0x00, 0x01];
    program.resize(0x4002, 0x00);
    program[0x3FFF] = 0xEA;
    program[0x4000] = 0x80;
    program[0x4001] = 0xFF;
    let bus = bus_with(&program);
    let lines = disassemble_rom(&bus);
    assert_eq!(lines[0], (0x0000, String::from("LD A, $42")));
    assert_eq!(lines[1], (0x0002, String::from("BIT 7, A")));
    assert_eq!(lines[2], (0x0005, String::from("JP $0100")));
    assert_eq!(lines[3], (0x0008, String::from("NOP")));
    assert_eq!(lines.len(), 3 + (0x3FFF - 8) + 1);
    assert_eq!(lines[lines.len() - 1], (0x3FFF, String::from("LD ($ff80), A")));
    assert_eq!(lines[lines.len() - 2], (0x3FFE, String::from("NOP")));
}

#[test]
fn words_and_flags_are_written_in_letters() {
    assert_eq!(word_text(0xBEEF), "BEEF");
    assert_eq!(word_text(0x000A), "000A");
    let mut cpu = Cpu::new();
    assert_eq!(cpu.format_flag(), "znhc");
    cpu.set_flags(true, false, true, false);
    assert_eq!(cpu.format_flag(), "ZnHc");
    cpu.set_flags(false, true, false, true);
    assert_eq!(cpu.format_flag(), "zNhC");
}

#[test]
fn registers_are_written_as_a_block() {
    let mut cpu = Cpu::new();
    cpu.set_af(0x01B0);
    cpu.set_bc(0x0013);
    cpu.set_de(0x00D8);
    cpu.set_hl(0x014D);
    cpu.pc = 0x0100;
    cpu.sp = 0xFFFE;
    let text = RegistersWidget::new(&cpu).format_registers();
    assert_eq!(
        text,
        "\n A  : 01    PC : 0100\n B C: 00 13 SP : FFFE\n D E: 00 D8\n H L: 01 4D\n F  : 1011\n      ZNHC\n            "
    );
}

#[test]
fn stack_is_read_from_the_top_down_to_its_start() {
    let mut bus = bus_with(&[]);
    bus.write_byte(0xFFFA, 0x34);
    bus.write_byte(0xFFFB, 0x12);
    bus.write_byte(0xFFFC, 0x78);
    bus.write_byte(0xFFFD, 0x56);
    assert_eq!(StackWidgetState::new(0xFFFA, &bus).words(), vec![0x1234, 0x5678]);
    assert_eq!(StackWidgetState::new(0xFFFC, &bus).words(), vec![0x5678]);
    assert_eq!(StackWidgetState::new(0xFFFD, &bus).words(), vec![0x0056]);
    assert!(StackWidgetState::new(0xFFFE, &bus).words().is_empty());
    assert!(StackWidgetState::new(0xFFFF, &bus).words().is_empty());
    assert_eq!(StackWidgetState::new(0xC000, &bus).words().len(), (0xFFFE - 0xC000) / 2);
}

#[test]
fn listing_line_is_found_for_the_program_counter() {
    let lines: Vec<(u16, String)> =
        [0u16, 2, 3, 6, 7].into_iter().map(|address| (address, String::from("NOP"))).collect();
    assert_eq!(selected_instruction(&lines, 0), Some(0));
    assert_eq!(selected_instruction(&lines, 1), Some(1));
    assert_eq!(selected_instruction(&lines, 3), Some(2));
    assert_eq!(selected_instruction(&lines, 4), Some(3));
    assert_eq!(selected_instruction(&lines, 5), None);
    assert_eq!(selected_instruction(&lines, 0x100), None);
    assert_eq!(selected_instruction(&Vec::new(), 0), None);
    let high: Vec<(u16, String)> =
        (0..20u16).map(|index| (index / 2, String::from("NOP"))).collect();
    assert_eq!(selected_instruction(&high, 15), None);
    assert_eq!(selected_instruction(&high, 9), Some(18));
}

#[test]
fn marked_addresses_are_told_apart() {
    let bus = bus_with(&[]);
    let state = MemoryWidgetState::new(&bus, vec![0x0100, 0xC000]);
    assert!(state.is_marked(0x0100));
    assert!(state.is_marked(0xC000));
    assert!(!state.is_marked(0x0101));
    assert!(!MemoryWidgetState::new(&bus, Vec::new()).is_marked(0));
}
