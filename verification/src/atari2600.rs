//! The Atari 2600: its bus, RAM and ROM, the RIOT and the TIA chips, and the
//! host keys that drive its switches and joysticks.
pub mod address_space;
pub mod app;
pub mod memory;
pub mod riot;
pub mod test_utils;
pub mod tia;
