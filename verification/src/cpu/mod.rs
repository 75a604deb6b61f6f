//! The hart: its registers, its control and status registers, and its instructions.

pub mod cpu;
pub mod cpu_alu;
pub mod cpu_csr;
pub mod cpu_encoding;
pub mod cpu_instruction;
pub mod cpu_instruction_comp;
pub mod trap;
