//! Commodore 64 peripherals: the address spaces of the CPU and the VIC-II,
//! the CIA and its ports and timers, the datasette, the keyboard matrix and
//! its host key layout, the SID stub, the VIC-II and its display.
pub mod address_space;
pub mod app;
pub mod cia;
pub mod frame_renderer;
pub mod keyboard;
pub mod port;
pub mod sid;
pub mod tape;
pub mod timer;
pub mod vic;
