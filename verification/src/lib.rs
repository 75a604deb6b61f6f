//! A software model of a single RISC-V hart together with the memory map it runs against.

pub mod console;
pub mod cpu;
pub mod dram;
pub mod elf_loader;
pub mod emulator;
pub mod machine;
pub mod mmu;
pub mod peripherals;
pub mod system_bus;
pub mod trap;
