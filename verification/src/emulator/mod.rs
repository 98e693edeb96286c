pub mod bitops;
pub mod bus;
pub mod cartridge;
pub mod cpu;
pub mod gameboy;
pub mod instructions;
pub mod interrupt;
pub mod interrupts_helper;
pub mod joypad;
pub mod laws;
pub mod mbcs;
pub mod memory;
pub mod ppu;
pub mod text;
pub mod timer;
