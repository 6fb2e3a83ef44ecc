//! Addresses of the CIA registers (mirrored over the low 4 address bits).
use vstd::prelude::*;

verus! {

pub const PRA: u16 = 0x0;
pub const PRB: u16 = 0x1;
pub const DDRA: u16 = 0x2;
pub const DDRB: u16 = 0x3;
pub const TA_LO: u16 = 0x4;
pub const TA_HI: u16 = 0x5;
pub const TB_LO: u16 = 0x6;
pub const TB_HI: u16 = 0x7;
pub const ICR: u16 = 0xD;
pub const CRA: u16 = 0xE;
pub const CRB: u16 = 0xF;

} // verus!
