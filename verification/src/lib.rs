//! Instruction-execution core of an emulator for the Sharp SM83, the 8-bit
//! processor of the Game Boy.
//!
//! One call of [`cpu::Cpu::execute_instruction`] performs one bus cycle: it
//! either runs the oldest pending micro-operation or fetches and dispatches
//! the next opcode. What a cycle does to the registers, the flags, the queue
//! of micro-operations and the byte store is defined by the spec function
//! [`machine::step`], and the executable core is proved to follow it.

pub mod alu;
pub mod cpu;
pub mod error;
pub mod flags;
pub mod instruction;
pub mod machine;
pub mod memory;
pub mod micro_op;
pub mod registers;
