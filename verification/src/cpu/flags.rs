//! Bits of the processor status register.
use vstd::prelude::*;

verus! {

pub const N: u8 = 0x80;
pub const V: u8 = 0x40;
pub const UNUSED: u8 = 0x20;
pub const D: u8 = 0x08;
pub const I: u8 = 0x04;
pub const Z: u8 = 0x02;
pub const C: u8 = 0x01;

} // verus!
