//! Emulation core for the MOS 6510 microprocessor (the 6502 variant used in
//! the Commodore 64): a flat 64 KiB byte-addressable memory, the documented
//! opcode table, addressing-mode resolution, and the fetch-decode-execute
//! engine with its status-flag and cycle-accounting rules.

pub mod memory;
pub mod opcode;
pub mod cpu;
pub mod laws;

pub use memory::Memory;
pub use memory::MEMORY_SIZE;
