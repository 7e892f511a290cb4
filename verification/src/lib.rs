//! A verified CHIP-8 instruction engine: opcode decoding, the
//! register/memory/timer state machine, and the addressing and overflow
//! semantics of the CHIP-8 instruction set.
//!
//! Host concerns (windowing, keyboard mapping, ROM files, the driving loop)
//! live outside this crate; the engine exposes narrow, fully specified
//! interfaces to them.

pub mod cpu;
pub mod instruction;
pub mod memory;

pub use cpu::CPU;
pub use cpu::Flags;
pub use cpu::Key;
pub use instruction::Instruction;
pub use memory::EmuError;
pub use memory::Memory;
