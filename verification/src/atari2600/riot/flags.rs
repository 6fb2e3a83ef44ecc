//! Bits of the TIMINT register.
use vstd::prelude::*;

verus! {

pub const TIMINT_TIMER: u8 = 0x80;
pub const TIMINT_PA7: u8 = 0x40;

} // verus!
