//! A cycle-driven model of the Game Boy (DMG): the SM83 processor, the memory
//! bus and the peripherals whose timing a guest program can observe.
//!
//! Every type has a mathematical model, and every function states in its
//! contract the state it leaves behind as a function of the state it found.

pub mod emulator;
pub mod gui;
