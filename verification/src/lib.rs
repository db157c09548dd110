//! Core of a cycle-stepped emulator for an 8-bit console built around a
//! 6502-family CPU and a scanline picture processing unit.
//!
//! The functions of this crate carry contracts that Verus proves. The
//! contracts are stated over mathematical models of the machine state:
//! `bus_model`, `cpu_model` and `ppu_model` say what the machine does, and
//! `bus`, `cpu` and `ppu` do it. Only the functions of `bits` that call the
//! `bitfield` and `tock-registers` crates are taken on trust.

pub mod bits;
pub mod controller;
pub mod error;
pub mod palette;
pub mod palette_memory;
pub mod cartridge_data;
pub mod mappers;
pub mod ppu_registers;
pub mod bus_model;
pub mod bus;
pub mod alu;
pub mod instruction;
pub mod cpu_model;
pub mod cpu;
pub mod screen;
pub mod ppu_model;
pub mod ppu;
pub mod nes;
pub mod trace;
