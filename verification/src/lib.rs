//! A cycle-level emulation library for 6502-based machines: the CPU itself,
//! Atari 2600 chips (TIA, RIOT), Commodore 64 peripherals, the displays that
//! turn their video output into pictures, and a debugger that speaks the
//! Debug Adapter Protocol.
pub mod memory;
pub mod cpu;
pub mod delay_buffer;
pub mod frame_renderer;
pub mod riot;
pub mod tia;
pub mod test_utils;
pub mod address_space;
pub mod atari;
pub mod atari2600;
pub mod c64;
pub mod common;
pub mod stream;
mod bits;
mod random;
mod text;
