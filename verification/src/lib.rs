//! Core of a small 6502-family machine emulator: a cartridge loader for the
//! iNES container format, a memory bus with RAM and ROM mirroring, a total
//! opcode table, and the CPU execution engine itself.
//!
//! The host driver around this library constructs a [`cartridge::Rom`] from
//! raw bytes, wraps it in a [`bus::Bus`], builds a [`cpu::Cpu`] on top, and
//! drives execution through [`cpu::Cpu::run_with_hook`], supplying a
//! [`cpu::StepHook`] that is invoked once per instruction boundary.

pub mod bus;
pub mod cartridge;
pub mod cpu;
pub mod input;
pub mod opcodes;
pub mod screen;
