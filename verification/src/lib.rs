//! The processor core of a small 8-bit virtual machine in the CHIP-8 family.
//!
//! The core fetches two-byte big-endian instruction words from a 4096-byte
//! memory image, decodes them into a closed set of instructions and executes
//! them on sixteen 8-bit registers and a call stack of sixteen frames.
//!
//! Everything the processor does is described twice: once as a mathematical
//! transition relation on [`machine::Machine`] values, and once as executable
//! code on [`cpu::CPU`] whose contracts tie it to that relation.

pub mod cpu;
pub mod instruction;
pub mod laws;
pub mod machine;
pub mod stack;
