//! Processing core of an 8-bit handheld console: register file, instruction
//! decoding and execution, and the memory-mapped address space.
pub mod alu;
pub mod cpu;
pub mod gpu;
pub mod instructions;
pub mod interrupts;
pub mod memory_bus;
pub mod memory_map;
pub mod registers;
