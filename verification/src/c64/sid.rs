use crate::memory::{ReadError, ReadResult, WriteResult};
use vstd::prelude::*;

verus! {

/// A 6581 SID chip. So far, it's just a dumb address space that doesn't do
/// anything: writes are accepted and ignored, reads fail.
#[derive(Debug)]
pub struct Sid {}

impl Sid {
    pub fn new() -> (r: Self) {
        Sid {  }
    }

    pub fn write(&mut self, _address: u16, _value: u8) -> (r: WriteResult)
        ensures
            r is Ok,
    {
        Ok(())
    }

    pub fn inspect(&self, address: u16) -> (r: ReadResult)
        ensures
            r == Err::<u8, ReadError>(ReadError { address }),
    {
        Err(ReadError { address })
    }

    pub fn read(&mut self, address: u16) -> (r: ReadResult)
        ensures
            r == Err::<u8, ReadError>(ReadError { address }),
    {
        self.inspect(address)
    }
}

} // verus!
