use crate::memory::{Memory, ReadError, ReadResult, WriteError, WriteResult};
use vstd::prelude::*;

verus! {

/// Dispatches read/write calls to various devices with memory-mapped interfaces:
/// TIA, RAM, RIOT (not yet implemented), and ROM.
#[derive(Debug)]
pub struct AddressSpace<T: Memory, RA: Memory, RO: Memory> {
    pub tia: T,
    pub ram: RA,
    pub rom: RO,
}

/// The devices of the address space.
#[derive(Debug, Clone, Copy, PartialEq, Eq, Structural)]
pub enum MemoryArea {
    Tia,
    Ram,
    Riot,
    Rom,
}

/// A12 selects the ROM; otherwise A7 clear selects the TIA, A7 set with A9
/// clear the RAM, and the rest is the RIOT's.
pub open spec fn area_of(address: u16) -> MemoryArea {
    if (address / 0x1000) % 2 == 1 {
        MemoryArea::Rom
    } else if (address / 0x80) % 2 == 0 {
        MemoryArea::Tia
    } else if (address / 0x200) % 2 == 0 {
        MemoryArea::Ram
    } else {
        MemoryArea::Riot
    }
}

pub fn map_address(address: u16) -> (r: MemoryArea)
    ensures
        r == area_of(address),
{
    assert(((address & 0b0001_0000_0000_0000 != 0) == ((address / 0x1000) % 2 == 1))
        && ((address & 0b0000_0000_1000_0000 == 0) == ((address / 0x80) % 2 == 0))
        && (((address & 0b0000_0010_1000_0000) == 0b0000_0000_1000_0000) == ((address / 0x80) % 2
        == 1 && (address / 0x200) % 2 == 0))) by (bit_vector);
    if address & 0b0001_0000_0000_0000 != 0 {
        MemoryArea::Rom
    } else if address & 0b0000_0000_1000_0000 == 0 {
        MemoryArea::Tia
    } else if address & 0b0000_0010_1000_0000 == 0b0000_0000_1000_0000 {
        MemoryArea::Ram
    } else {
        MemoryArea::Riot
    }
}

impl<T: Memory, RA: Memory, RO: Memory> Memory for AddressSpace<T, RA, RO> {
    open spec fn read_spec(&self, address: u16) -> ReadResult {
        match area_of(address) {
            MemoryArea::Tia => self.tia.read_spec(address),
            MemoryArea::Ram => self.ram.read_spec(address),
            MemoryArea::Rom => self.rom.read_spec(address),
            MemoryArea::Riot => Err(ReadError { address }),
        }
    }

    open spec fn write_spec(&self, address: u16, value: u8) -> WriteResult {
        match area_of(address) {
            MemoryArea::Tia => self.tia.write_spec(address, value),
            MemoryArea::Ram => self.ram.write_spec(address, value),
            MemoryArea::Rom => self.rom.write_spec(address, value),
            MemoryArea::Riot => Err(WriteError { address, value }),
        }
    }

    open spec fn after_write(&self, address: u16, value: u8, next: Self) -> bool {
        match area_of(address) {
            MemoryArea::Tia => self.tia.after_write(address, value, next.tia) && next.ram
                == self.ram && next.rom == self.rom,
            MemoryArea::Ram => self.ram.after_write(address, value, next.ram) && next.tia
                == self.tia && next.rom == self.rom,
            MemoryArea::Rom => self.rom.after_write(address, value, next.rom) && next.tia
                == self.tia && next.ram == self.ram,
            MemoryArea::Riot => next == *self,
        }
    }

    fn read(&self, address: u16) -> (r: ReadResult) {
        match map_address(address) {
            MemoryArea::Tia => self.tia.read(address),
            MemoryArea::Ram => self.ram.read(address),
            MemoryArea::Rom => self.rom.read(address),
            MemoryArea::Riot => Err(ReadError { address }),
        }
    }

    fn write(&mut self, address: u16, value: u8) -> (r: WriteResult) {
        match map_address(address) {
            MemoryArea::Tia => self.tia.write(address, value),
            MemoryArea::Ram => self.ram.write(address, value),
            // Writing to ROM is not the AddressSpace's business to forbid.
            MemoryArea::Rom => self.rom.write(address, value),
            MemoryArea::Riot => Err(WriteError { address, value }),
        }
    }
}

} // verus!
