use vstd::prelude::*;
use super::bus::{Bus, BusView};
use super::cartridge::{cartridge_error, cartridge_of, load_cartridge, CartridgeError};
use super::cpu::{cpu_reset, interrupt_served, step_is_legal, step_spec, Cpu};
use super::interrupt::InterruptState;
use super::joypad::{joypad_idle, joypad_with_buttons, Joypad};
use super::ppu::{ppu_reset, Ppu, PpuView};
use super::timer::Timer;

verus! {

/// The whole machine: the processor, and the bus with all that hangs on
/// it. `accum_cycle` counts the T-cycles spent, modulo 2^128, and
/// `can_render` tells that a frame stands ready for the host, which clears
/// it.
pub struct Gameboy {
    pub cpu: Cpu,
    pub bus: Bus,
    pub accum_cycle: u128,
    pub can_render: bool,
}

pub struct GameboyView {
    pub cpu: Cpu,
    pub bus: BusView,
    pub accum_cycle: u128,
    pub can_render: bool,
}

impl View for Gameboy {
    type V = GameboyView;

    open spec fn view(&self) -> GameboyView {
        GameboyView { cpu: self.cpu, bus: self.bus@, accum_cycle: self.accum_cycle, can_render: self.can_render }
    }
}

impl GameboyView {
    pub open spec fn wf(self) -> bool {
        self.bus.wf()
    }

    /// The machine as it is made for the cartridge image `data`.
    pub open spec fn power_on(data: Seq<u8>) -> GameboyView {
        GameboyView {
            cpu: cpu_reset(),
            bus: BusView {
                mbc: cartridge_of(data),
                interrupt: InterruptState { ime: false, interrupt_enable: 0, interrupt_flag: 0 },
                ppu: ppu_reset(),
                timer: Timer { last_tick: false, div: 0, tima: 0, tma: 0, tac: 0 },
                joypad: joypad_idle(),
                bootrom_enable: false,
                bootrom: Seq::new(0x100, |i: int| 0u8),
                wram: Seq::new(0x2000, |i: int| 0u8),
                hram: Seq::new(127, |i: int| 0u8),
            },
            accum_cycle: 0,
            can_render: false,
        }
    }

    /// The machine after the step that cost `cycles` has left the processor
    /// as `cpu` and the bus as `bus`: the peripherals are given the same
    /// T-cycles, the count of T-cycles grows by them, and a frame stands
    /// ready if the pixel unit has entered V-blank.
    pub open spec fn after_step(self, cpu: Cpu, bus: BusView, cycles: i32) -> GameboyView {
        let advanced = bus.advance(cycles);
        GameboyView {
            cpu,
            bus: advanced,
            accum_cycle: if self.accum_cycle + cycles > u128::MAX {
                (self.accum_cycle + cycles - u128::MAX - 1) as u128
            } else {
                (self.accum_cycle + cycles) as u128
            },
            can_render: self.can_render || (bus.ppu.ly < 144 && advanced.ppu.ly >= 144),
        }
    }

    /// Whether a tick can be taken: whether the processor, once the
    /// interrupts have been looked at, sleeps or finds an instruction.
    pub open spec fn can_tick(self) -> bool {
        step_is_legal(self.cpu, self.bus)
    }

    /// The machine after one tick: the processor takes a step, and the
    /// peripherals follow.
    pub open spec fn tick(self) -> GameboyView {
        let stepped = step_spec(self.cpu, self.bus);
        self.after_step(stepped.0, stepped.1, stepped.2)
    }

    /// The machine as the boot ROM leaves it: the registers of the
    /// processor and of the peripherals hold what a DMG holds when the
    /// cartridge takes over, and the boot ROM is switched off.
    pub open spec fn no_bootrom_init(self) -> GameboyView {
        GameboyView {
            cpu: Cpu {
                a: 0x01,
                f: 0xB0,
                b: 0x00,
                c: 0x13,
                d: 0x00,
                e: 0xD8,
                h: 0x01,
                l: 0x4D,
                pc: 0x100,
                sp: 0xFFFE,
                ..self.cpu
            },
            bus: BusView {
                timer: Timer { tima: 0, tma: 0, tac: 0, ..self.bus.timer },
                ppu: PpuView {
                    lcdc: 0x91,
                    scy: 0,
                    scx: 0,
                    lyc: 0,
                    bgp: 0xFC,
                    obp0: 0xFF,
                    obp1: 0xFF,
                    wy: 0,
                    wx: 0,
                    ..self.bus.ppu
                },
                interrupt: InterruptState { interrupt_enable: 0, ..self.bus.interrupt },
                bootrom_enable: false,
                ..self.bus
            },
            ..self
        }
    }
}

/// Writes the timer's registers as the boot ROM leaves them.
fn seed_timer(bus: &mut Bus)
    requires
        old(bus)@.wf(),
    ensures
        final(bus)@ == (BusView { timer: Timer { tima: 0, tma: 0, tac: 0, ..old(bus).timer }, ..old(bus)@ }),
        final(bus)@.wf(),
{
    proof {
        reveal(BusView::write);
    }
    bus.write_byte(0xFF05, 0x00);
    bus.write_byte(0xFF06, 0x00);
    bus.write_byte(0xFF07, 0x00);
}

/// Writes the sound registers as the boot ROM leaves them. This machine
/// has no sound unit, so the bus drops the writes.
fn seed_sound(bus: &mut Bus)
    requires
        old(bus)@.wf(),
    ensures
        final(bus)@ == old(bus)@,
        final(bus)@.wf(),
{
    proof {
        reveal(BusView::write);
    }
    bus.write_byte(0xFF10, 0x80);
    bus.write_byte(0xFF11, 0xBF);
    bus.write_byte(0xFF12, 0xF3);
    bus.write_byte(0xFF14, 0xBF);
    bus.write_byte(0xFF16, 0x3F);
    bus.write_byte(0xFF17, 0x00);
    bus.write_byte(0xFF19, 0xBF);
    bus.write_byte(0xFF1A, 0x7F);
    bus.write_byte(0xFF1B, 0xFF);
    bus.write_byte(0xFF1C, 0x9F);
    bus.write_byte(0xFF1E, 0xBF);
    bus.write_byte(0xFF20, 0xFF);
    bus.write_byte(0xFF21, 0x00);
    bus.write_byte(0xFF22, 0x00);
    bus.write_byte(0xFF23, 0xBF);
    bus.write_byte(0xFF24, 0x77);
    bus.write_byte(0xFF26, 0xF1);
    bus.write_byte(0xFF25, 0xF3);
}

/// Writes the registers of the pixel unit as the boot ROM leaves them.
fn seed_lcd(bus: &mut Bus)
    requires
        old(bus)@.wf(),
    ensures
        final(bus)@ == (BusView {
            ppu: PpuView {
                lcdc: 0x91,
                scy: 0,
                scx: 0,
                lyc: 0,
                bgp: 0xFC,
                obp0: 0xFF,
                obp1: 0xFF,
                wy: 0,
                wx: 0,
                ..old(bus)@.ppu
            },
            ..old(bus)@
        }),
        final(bus)@.wf(),
{
    proof {
        reveal(BusView::write);
    }
    bus.write_byte(0xFF40, 0x91);
    bus.write_byte(0xFF42, 0x00);
    bus.write_byte(0xFF43, 0x00);
    bus.write_byte(0xFF45, 0x00);
    bus.write_byte(0xFF47, 0xFC);
    bus.write_byte(0xFF48, 0xFF);
    bus.write_byte(0xFF49, 0xFF);
    bus.write_byte(0xFF4A, 0);
    bus.write_byte(0xFF4B, 0);
}

/// Clears the interrupt enable mask and switches the boot ROM off.
fn seed_control(bus: &mut Bus)
    requires
        old(bus)@.wf(),
    ensures
        final(bus)@ == (BusView {
            interrupt: InterruptState { interrupt_enable: 0, ..old(bus).interrupt },
            bootrom_enable: false,
            ..old(bus)@
        }),
        final(bus)@.wf(),
{
    proof {
        reveal(BusView::write);
    }
    bus.write_byte(0xFFFF, 0x00);
    bus.write_byte(0xFF50, 1);
}

impl Gameboy {
    /// Makes the machine for the cartridge image `rom`.
    pub fn new(rom: Vec<u8>) -> (r: Result<Self, CartridgeError>)
        ensures
            match r {
                Ok(gameboy) => cartridge_error(rom@) is None && gameboy@ == GameboyView::power_on(rom@)
                    && gameboy@.wf(),
                Err(e) => cartridge_error(rom@) == Some(e),
            },
    {
        let mbc = match load_cartridge(rom) {
            Ok(mbc) => mbc,
            Err(e) => {
                return Err(e);
            },
        };
        let bus = Bus::new(mbc, InterruptState::default(), Ppu::default(), Timer::default(), Joypad::default());
        Ok(Gameboy { cpu: Cpu::new(), bus, accum_cycle: 0u128, can_render: false })
    }

    /// Tells whether the machine is in a state that it can work from.
    pub fn is_valid(&self) -> (r: bool)
        ensures
            r == self@.wf(),
    {
        self.bus.is_valid()
    }

    /// The picture: 144 lines of 160 pixels, each one of the shades 0 to 3.
    pub fn get_frame_buffer(&self) -> (r: [u8; 23040])
        requires
            self@.wf(),
        ensures
            r@ == self@.bus.ppu.frame_buffer,
            forall|i: int| 0 <= i < 23040 ==> #[trigger] r@[i] <= 3,
    {
        self.bus.ppu.frame_buffer
    }

    /// Takes the host's view of the eight buttons, `true` for a held one.
    pub fn set_buttons(
        &mut self,
        start: bool,
        select: bool,
        a: bool,
        b: bool,
        up: bool,
        down: bool,
        left: bool,
        right: bool,
    )
        ensures
            final(self)@ == (GameboyView {
                bus: BusView {
                    joypad: joypad_with_buttons(old(self).bus.joypad, start, select, a, b, up, down, left, right),
                    ..old(self)@.bus
                },
                ..old(self)@
            }),
    {
        self.bus.joypad.set_buttons(start, select, a, b, up, down, left, right);
    }

    /// Gives the peripherals the T-cycles of a step and keeps the books.
    fn finish_tick(&mut self, cycle: i32, Ghost(before): Ghost<GameboyView>)
        requires
            old(self)@.wf(),
            0 <= cycle,
            old(self).accum_cycle == before.accum_cycle,
            old(self).can_render == before.can_render,
        ensures
            final(self)@ == before.after_step(old(self).cpu, old(self)@.bus, cycle),
            final(self)@.wf(),
    {
        let line = self.bus.ppu.ly;
        self.bus.advance(cycle);
        self.accum_cycle = self.accum_cycle.wrapping_add(cycle as u128);
        if line < 144 && self.bus.ppu.ly >= 144 {
            self.can_render = true;
        }
    }

    /// Runs one instruction's worth of work.
    pub fn tick(&mut self)
        requires
            old(self)@.wf(),
            old(self)@.can_tick(),
        ensures
            final(self)@ == old(self)@.tick(),
            final(self)@.wf(),
    {
        let ghost before = self@;
        let cycle = self.cpu.step(&mut self.bus);
        self.finish_tick(cycle, Ghost(before));
    }

    /// Runs one instruction's worth of work if there is an instruction to
    /// run, and tells whether there was. If there was none, the interrupts
    /// have been looked at and nothing else has happened.
    pub fn try_tick(&mut self) -> (done: bool)
        requires
            old(self)@.wf(),
        ensures
            done == old(self)@.can_tick(),
            done ==> final(self)@ == old(self)@.tick(),
            !done ==> final(self)@ == ({
                let served = interrupt_served(old(self).cpu, old(self)@.bus);
                GameboyView { cpu: served.0, bus: served.1, ..old(self)@ }
            }),
            final(self)@.wf(),
    {
        let ghost before = self@;
        match self.cpu.try_step(&mut self.bus) {
            Some(cycle) => {
                self.finish_tick(cycle, Ghost(before));
                true
            },
            None => false,
        }
    }

    /// Puts the machine into the state in which the boot ROM leaves it.
    pub fn no_bootrom_init(&mut self)
        requires
            old(self)@.wf(),
        ensures
            final(self)@ == old(self)@.no_bootrom_init(),
            final(self)@.wf(),
    {
        self.cpu.set_af(0x01B0);
        self.cpu.set_bc(0x0013);
        self.cpu.set_de(0x00D8);
        self.cpu.set_hl(0x014D);
        self.cpu.pc = 0x100;
        self.cpu.sp = 0xFFFE;

        seed_timer(&mut self.bus);
        seed_sound(&mut self.bus);
        seed_lcd(&mut self.bus);
        seed_control(&mut self.bus);
    }
}

} // verus!
