//! What a debugger shows of the machine, as plain values: listings,
//! register dumps and stack contents. Drawing them is left to a front end.

pub mod disassembler;
pub mod widgets;
