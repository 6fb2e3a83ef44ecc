//! Bits of a CIA timer's control register.
use vstd::prelude::*;

verus! {

pub const START: u8 = 0x01;
pub const RUNMODE: u8 = 0x08;
pub const LOAD: u8 = 0x10;

pub const RUNMODE_ONE_SHOT: u8 = RUNMODE;
pub const RUNMODE_CONTINUOUS: u8 = 0;

} // verus!
