//! Addresses of the RIOT registers, relative to the chip's base (0x280).
use vstd::prelude::*;

verus! {

pub const SWCHA: u16 = 0x00;
pub const SWACNT: u16 = 0x01;
pub const SWCHB: u16 = 0x02;
pub const SWBCNT: u16 = 0x03;
pub const INTIM: u16 = 0x04;
pub const TIMINT: u16 = 0x05;
pub const TIM1T: u16 = 0x14;
pub const TIM8T: u16 = 0x15;
pub const TIM64T: u16 = 0x16;
pub const T1024T: u16 = 0x17;

// Unofficial write addresses (PA7 edge detection)
/// Use negative edge detection.
pub const PA7_NEG: u16 = 0x04;
/// Use positive edge detection.
pub const PA7_POS: u16 = 0x05;

} // verus!
