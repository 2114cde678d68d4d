//! Core of a DMG-style 8-bit handheld emulator: the instruction interpreter,
//! the 64 KiB memory bus with cartridge bank routing, the MBC1 bank-switching
//! state machine, and the cycle-driven hardware timer.
//!
//! Every executable function carries a contract that pins its behaviour down
//! to a mathematical model of the machine state; the front end (argument
//! parsing, file loading, the trace-log writer) lives outside this crate.

pub mod arith;
pub mod args;
pub mod cartridge;
pub mod cpu;
pub mod gameboy;
pub mod memory;
pub mod timer;
