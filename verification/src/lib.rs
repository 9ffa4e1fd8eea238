//! The processing core of an 8-bit home console: a 6502-family processor, the
//! bus that routes its accesses, the picture unit's frame timing, and the
//! cartridge with its address mapper.
//!
//! One value, the [`bus::BUS`], owns every component. The processor and the
//! picture unit hold no reference to anything: each operation that needs the
//! bus or the cartridge takes it as a parameter.

pub mod bus;
pub mod cartridge;
pub mod cpu;
pub mod instruction;
pub mod mapper;
pub mod mapper000;
pub mod ppu;
pub mod semantics;
pub mod state;
pub mod status;
