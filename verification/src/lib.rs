//! An instruction-level emulator core for the 6502 microprocessor.
//!
//! The crate reproduces the processor's observable state transitions —
//! registers, status flags, program counter and the 64 KiB address space —
//! in response to a stream of machine-code bytes.  It models no peripherals,
//! no cycle timing and no interrupts beyond the reset-vector read.
//!
//! The exact meaning of every operation is written down once, as a
//! mathematical transition function over [`semantics::CpuView`], and the
//! executable engine in [`cpu`] is proved to follow it step by step.

pub mod cpu;
pub mod opcodes;
pub mod semantics;
