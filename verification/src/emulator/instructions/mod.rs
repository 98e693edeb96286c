pub mod alu16;
pub mod alu8;
pub mod bits;
pub mod inst_group;
pub mod interrupts;
pub mod jumps;
pub mod loads;
pub mod misc;
pub mod opcode;
pub mod opcode_table;
pub mod operand;
pub mod rotates;
pub mod stack;
