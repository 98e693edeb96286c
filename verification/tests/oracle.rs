use gameboy::emulator::bus::Bus;
use gameboy::emulator::cpu::Cpu;
use gameboy::emulator::interrupt::InterruptState;
use gameboy::emulator::joypad::Joypad;
use gameboy::emulator::mbcs::mbc::Mbc;
use gameboy::emulator::mbcs::rom::Rom;
use gameboy::emulator::ppu::Ppu;
use gameboy::emulator::timer::Timer;
use serde_json::Value;

fn number(state: &Value, field: &str) -> u64 {
    state[field].as_u64().unwrap()
}

fn ram(state: &Value) -> Vec<(u16, u8)> {
    state["ram"]
        .as_array()
        .unwrap()
        .iter()
        .map(|pair| (pair[0].as_u64().unwrap() as u16, pair[1].as_u64().unwrap() as u8))
        .collect()
}

fn cpu_of(state: &Value) -> Cpu {
    let mut cpu = Cpu::new();
    cpu.pc = number(state, "pc") as u16;
    cpu.sp = number(state, "sp") as u16;
    cpu.a = number(state, "a") as u8;
    cpu.f = number(state, "f") as u8;
    cpu.b = number(state, "b") as u8;
    cpu.c = number(state, "c") as u8;
    cpu.d = number(state, "d") as u8;
    cpu.e = number(state, "e") as u8;
    cpu.h = number(state, "h") as u8;
    cpu.l = number(state, "l") as u8;
    cpu.i_enable_flag = state.get("ei").and_then(Value::as_u64).unwrap_or(0) != 0;
    cpu
}

/// Runs every case of the list `text`: the state before is set up, one
/// instruction runs, and the state after is held against what the case
/// expects, registers, memory and cost. Returns the number of cases.
fn run_cases(text: &str) -> usize {
    let cases: Value = serde_json::from_str(text).unwrap();
    let cases = cases.as_array().unwrap();
    for case in cases {
        let name = case["name"].as_str().unwrap();
        let initial = &case["initial"];
        let expected = &case["final"];

        let mut image = vec![0u8; 0x8000];
        for (address, value) in ram(initial) {
            if address < 0x8000 {
                image[address as usize] = value;
            }
        }
        let mut bus = Bus::new(
            Mbc::Rom(Rom::new(image)),
            InterruptState::default(),
            Ppu::default(),
            Timer::default(),
            Joypad::default(),
        );
        for (address, value) in ram(initial) {
            if address >= 0x8000 {
                bus.write_byte(address, value);
            }
        }
        bus.interrupt.ime = number(initial, "ime") != 0;
        let mut cpu = cpu_of(initial);

        assert!(cpu.can_run(&bus, true), "{name}: no instruction");
        let cycles = cpu.run(&mut bus, true);

        let wanted = cpu_of(expected);
        assert_eq!(cpu.pc, wanted.pc, "testing {name} on PC");
        assert_eq!(cpu.sp, wanted.sp, "testing {name} on SP");
        assert_eq!(cpu.a, wanted.a, "testing {name} on register a");
        assert_eq!(cpu.f, wanted.f, "testing {name} on register f");
        assert_eq!(cpu.b, wanted.b, "testing {name} on register b");
        assert_eq!(cpu.c, wanted.c, "testing {name} on register c");
        assert_eq!(cpu.d, wanted.d, "testing {name} on register d");
        assert_eq!(cpu.e, wanted.e, "testing {name} on register e");
        assert_eq!(cpu.h, wanted.h, "testing {name} on register h");
        assert_eq!(cpu.l, wanted.l, "testing {name} on register l");
        assert_eq!(cpu.i_enable_flag, wanted.i_enable_flag, "testing {name} on EI");
        assert_eq!(bus.interrupt.ime, number(expected, "ime") != 0, "testing {name} on IME");
        for (address, value) in ram(expected) {
            assert_eq!(
                bus.read_byte(address),
                value,
                "testing {name} on memory address {address} should be {value}"
            );
        }
        assert_eq!(cycles as usize, 4 * case["cycles"].as_array().unwrap().len(), "testing {name} on cycles");
    }
    cases.len()
}

#[test]
fn oracle_cases_for_loads_and_arithmetic_hold() {
    let cases = r#"[
      {"name": "3E 0000",
       "initial": {"pc": 256, "sp": 65534, "a": 0, "b": 1, "c": 2, "d": 3, "e": 4, "f": 176, "h": 5, "l": 6,
                   "ime": 0, "ram": [[256, 62], [257, 66]]},
       "final": {"pc": 258, "sp": 65534, "a": 66, "b": 1, "c": 2, "d": 3, "e": 4, "f": 176, "h": 5, "l": 6,
                 "ime": 0, "ram": [[256, 62], [257, 66]]},
       "cycles": [[256, 62, "r-m"], [257, 66, "r-m"]]},
      {"name": "80 0000",
       "initial": {"pc": 512, "sp": 0, "a": 15, "b": 1, "c": 0, "d": 0, "e": 0, "f": 192, "h": 0, "l": 0,
                   "ime": 1, "ram": [[512, 128]]},
       "final": {"pc": 513, "sp": 0, "a": 16, "b": 1, "c": 0, "d": 0, "e": 0, "f": 32, "h": 0, "l": 0,
                 "ime": 1, "ram": [[512, 128]]},
       "cycles": [[512, 128, "r-m"]]},
      {"name": "80 0001",
       "initial": {"pc": 512, "sp": 0, "a": 255, "b": 1, "c": 0, "d": 0, "e": 0, "f": 0, "h": 0, "l": 0,
                   "ime": 0, "ram": [[512, 128]]},
       "final": {"pc": 513, "sp": 0, "a": 0, "b": 1, "c": 0, "d": 0, "e": 0, "f": 176, "h": 0, "l": 0,
                 "ime": 0, "ram": [[512, 128]]},
       "cycles": [[512, 128, "r-m"]]},
      {"name": "09 0000",
       "initial": {"pc": 1000, "sp": 1, "a": 7, "b": 0, "c": 1, "d": 0, "e": 0, "f": 192, "h": 15, "l": 255,
                   "ime": 0, "ram": [[1000, 9]]},
       "final": {"pc": 1001, "sp": 1, "a": 7, "b": 0, "c": 1, "d": 0, "e": 0, "f": 160, "h": 16, "l": 0,
                 "ime": 0, "ram": [[1000, 9]]},
       "cycles": [[1000, 9, "r-m"], [null, null, "---"]]},
      {"name": "F8 0000",
       "initial": {"pc": 4096, "sp": 1, "a": 0, "b": 0, "c": 0, "d": 0, "e": 0, "f": 240, "h": 9, "l": 9,
                   "ime": 0, "ram": [[4096, 248], [4097, 255]]},
       "final": {"pc": 4098, "sp": 1, "a": 0, "b": 0, "c": 0, "d": 0, "e": 0, "f": 48, "h": 0, "l": 0,
                 "ime": 0, "ram": [[4096, 248], [4097, 255]]},
       "cycles": [[4096, 248, "r-m"], [4097, 255, "r-m"], [null, null, "---"]]},
      {"name": "27 0000",
       "initial": {"pc": 0, "sp": 0, "a": 138, "b": 0, "c": 0, "d": 0, "e": 0, "f": 0, "h": 0, "l": 0,
                   "ime": 0, "ram": [[0, 39]]},
       "final": {"pc": 1, "sp": 0, "a": 144, "b": 0, "c": 0, "d": 0, "e": 0, "f": 0, "h": 0, "l": 0,
                 "ime": 0, "ram": [[0, 39]]},
       "cycles": [[0, 39, "r-m"]]}
    ]"#;
    assert_eq!(run_cases(cases), 6);
}

#[test]
fn oracle_cases_for_the_stack_and_memory_hold() {
    let cases = r#"[
      {"name": "C9 0000",
       "initial": {"pc": 300, "sp": 65532, "a": 0, "b": 0, "c": 0, "d": 0, "e": 0, "f": 0, "h": 0, "l": 0,
                   "ime": 0, "ram": [[300, 201], [65532, 52], [65533, 18]]},
       "final": {"pc": 4660, "sp": 65534, "a": 0, "b": 0, "c": 0, "d": 0, "e": 0, "f": 0, "h": 0, "l": 0,
                 "ime": 0, "ram": [[300, 201], [65532, 52], [65533, 18]]},
       "cycles": [[300, 201, "r-m"], [65532, 52, "r-m"], [65533, 18, "r-m"], [null, null, "---"]]},
      {"name": "C5 0000",
       "initial": {"pc": 300, "sp": 49154, "a": 0, "b": 171, "c": 205, "d": 0, "e": 0, "f": 16, "h": 0, "l": 0,
                   "ime": 0, "ram": [[300, 197], [49152, 0], [49153, 0]]},
       "final": {"pc": 301, "sp": 49152, "a": 0, "b": 171, "c": 205, "d": 0, "e": 0, "f": 16, "h": 0, "l": 0,
                 "ime": 0, "ram": [[300, 197], [49152, 205], [49153, 171]]},
       "cycles": [[300, 197, "r-m"], [null, null, "---"], [49153, 171, "-wm"], [49152, 205, "-wm"]]},
      {"name": "F1 0000",
       "initial": {"pc": 300, "sp": 49152, "a": 0, "b": 0, "c": 0, "d": 0, "e": 0, "f": 0, "h": 0, "l": 0,
                   "ime": 0, "ram": [[300, 241], [49152, 255], [49153, 18]]},
       "final": {"pc": 301, "sp": 49154, "a": 18, "b": 0, "c": 0, "d": 0, "e": 0, "f": 240, "h": 0, "l": 0,
                 "ime": 0, "ram": [[300, 241], [49152, 255], [49153, 18]]},
       "cycles": [[300, 241, "r-m"], [49152, 255, "r-m"], [49153, 18, "r-m"]]},
      {"name": "34 0000",
       "initial": {"pc": 0, "sp": 0, "a": 0, "b": 0, "c": 0, "d": 0, "e": 0, "f": 16, "h": 192, "l": 16,
                   "ime": 0, "ram": [[0, 52], [49168, 15]]},
       "final": {"pc": 1, "sp": 0, "a": 0, "b": 0, "c": 0, "d": 0, "e": 0, "f": 48, "h": 192, "l": 16,
                 "ime": 0, "ram": [[0, 52], [49168, 16]]},
       "cycles": [[0, 52, "r-m"], [49168, 15, "r-m"], [49168, 16, "-wm"]]},
      {"name": "CB 46 0000",
       "initial": {"pc": 0, "sp": 0, "a": 0, "b": 0, "c": 0, "d": 0, "e": 0, "f": 80, "h": 255, "l": 128,
                   "ime": 0, "ram": [[0, 203], [1, 70], [65408, 254]]},
       "final": {"pc": 2, "sp": 0, "a": 0, "b": 0, "c": 0, "d": 0, "e": 0, "f": 176, "h": 255, "l": 128,
                 "ime": 0, "ram": [[0, 203], [1, 70], [65408, 254]]},
       "cycles": [[0, 203, "r-m"], [1, 70, "r-m"], [65408, 254, "r-m"]]},
      {"name": "CD 0000",
       "initial": {"pc": 256, "sp": 57344, "a": 0, "b": 0, "c": 0, "d": 0, "e": 0, "f": 0, "h": 0, "l": 0,
                   "ime": 0, "ram": [[256, 205], [257, 52], [258, 18]]},
       "final": {"pc": 4660, "sp": 57342, "a": 0, "b": 0, "c": 0, "d": 0, "e": 0, "f": 0, "h": 0, "l": 0,
                 "ime": 0, "ram": [[57342, 3], [57343, 1]]},
       "cycles": [[256, 205, "r-m"], [257, 52, "r-m"], [258, 18, "r-m"], [null, null, "---"],
                  [57343, 1, "-wm"], [57342, 3, "-wm"]]}
    ]"#;
    assert_eq!(run_cases(cases), 6);
}

#[test]
fn oracle_cases_for_the_interrupt_switches_hold() {
    let cases = r#"[
      {"name": "FB 0000",
       "initial": {"pc": 0, "sp": 0, "a": 0, "b": 0, "c": 0, "d": 0, "e": 0, "f": 0, "h": 0, "l": 0,
                   "ime": 0, "ei": 0, "ram": [[0, 251]]},
       "final": {"pc": 1, "sp": 0, "a": 0, "b": 0, "c": 0, "d": 0, "e": 0, "f": 0, "h": 0, "l": 0,
                 "ime": 0, "ei": 1, "ram": [[0, 251]]},
       "cycles": [[0, 251, "r-m"]]},
      {"name": "00 after EI",
       "initial": {"pc": 1, "sp": 0, "a": 0, "b": 0, "c": 0, "d": 0, "e": 0, "f": 0, "h": 0, "l": 0,
                   "ime": 0, "ei": 1, "ram": [[1, 0]]},
       "final": {"pc": 2, "sp": 0, "a": 0, "b": 0, "c": 0, "d": 0, "e": 0, "f": 0, "h": 0, "l": 0,
                 "ime": 1, "ei": 0, "ram": [[1, 0]]},
       "cycles": [[1, 0, "r-m"]]},
      {"name": "F3 0000",
       "initial": {"pc": 0, "sp": 0, "a": 0, "b": 0, "c": 0, "d": 0, "e": 0, "f": 0, "h": 0, "l": 0,
                   "ime": 1, "ram": [[0, 243]]},
       "final": {"pc": 1, "sp": 0, "a": 0, "b": 0, "c": 0, "d": 0, "e": 0, "f": 0, "h": 0, "l": 0,
                 "ime": 0, "ram": [[0, 243]]},
       "cycles": [[0, 243, "r-m"]]},
      {"name": "D9 0000",
       "initial": {"pc": 0, "sp": 49152, "a": 0, "b": 0, "c": 0, "d": 0, "e": 0, "f": 0, "h": 0, "l": 0,
                   "ime": 0, "ram": [[0, 217], [49152, 0], [49153, 2]]},
       "final": {"pc": 512, "sp": 49154, "a": 0, "b": 0, "c": 0, "d": 0, "e": 0, "f": 0, "h": 0, "l": 0,
                 "ime": 1, "ram": [[0, 217]]},
       "cycles": [[0, 217, "r-m"], [49152, 0, "r-m"], [49153, 2, "r-m"], [null, null, "---"]]}
    ]"#;
    assert_eq!(run_cases(cases), 4);
}
