//! Bits of the CIA interrupt control register.
use vstd::prelude::*;

verus! {

pub const ICR_TIMER_A: u8 = 0x01;
pub const ICR_TIMER_B: u8 = 0x02;
pub const ICR_FLAG_SIGNAL: u8 = 0x10;
pub const ICR_TRIGGERED: u8 = 0x80;
pub const ICR_SOURCE_BIT: u8 = 0x80;

} // verus!
