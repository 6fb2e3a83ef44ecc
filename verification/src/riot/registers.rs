//! Addresses of the RIOT registers.
use vstd::prelude::*;

verus! {

pub const SWCHA: u16 = 0x280;
pub const SWCHB: u16 = 0x282;
pub const INTIM: u16 = 0x284;
pub const TIM1T: u16 = 0x294;
pub const TIM8T: u16 = 0x295;
pub const TIM64T: u16 = 0x296;
pub const T1024T: u16 = 0x297;

} // verus!
