use crate::atari2600::memory::{ram_cell, AtariRam, Rom};
use crate::atari2600::riot::{self, Riot};
use crate::atari2600::tia::{self, Tia};
use crate::memory::{Ram, ReadError, ReadResult, WriteError, WriteResult};
use vstd::prelude::*;

verus! {

/// The devices that the Atari 2600 maps into its address space.
#[derive(Debug, Clone, Copy, PartialEq, Eq, Structural)]
pub enum MemoryArea {
    Tia,
    Ram,
    Riot,
    Rom,
}

/// Decides which device an address reaches: A12 selects the ROM; otherwise A7
/// clear selects the TIA, A7 set with A9 clear the RAM, and A7 and A9 set the
/// RIOT.
pub open spec fn area_of(address: u16) -> Option<MemoryArea> {
    if (address / 0x1000) % 2 == 1 {
        Some(MemoryArea::Rom)
    } else if (address / 0x80) % 2 == 0 {
        Some(MemoryArea::Tia)
    } else if (address / 0x200) % 2 == 0 {
        Some(MemoryArea::Ram)
    } else {
        Some(MemoryArea::Riot)
    }
}

pub fn map_address(address: u16) -> (r: Option<MemoryArea>)
    ensures
        r == area_of(address),
{
    assert(((address & 0b0001_0000_0000_0000 != 0) == ((address / 0x1000) % 2 == 1))
        && ((address & 0b0000_0000_1000_0000 == 0) == ((address / 0x80) % 2 == 0))
        && (((address & 0b0000_0010_1000_0000) == 0b0000_0000_1000_0000) == ((address / 0x80) % 2
        == 1 && (address / 0x200) % 2 == 0))
        && (((address & 0b0000_0010_1000_0000) == 0b0000_0010_1000_0000) == ((address / 0x80) % 2
        == 1 && (address / 0x200) % 2 == 1))) by (bit_vector);
    if address & 0b0001_0000_0000_0000 != 0 {
        Some(MemoryArea::Rom)
    } else if address & 0b0000_0000_1000_0000 == 0 {
        Some(MemoryArea::Tia)
    } else if address & 0b0000_0010_1000_0000 == 0b0000_0000_1000_0000 {
        Some(MemoryArea::Ram)
    } else if address & 0b0000_0010_1000_0000 == 0b0000_0010_1000_0000 {
        Some(MemoryArea::Riot)
    } else {
        None
    }
}

/// A device on the Atari 2600 bus. Reading may change the device (the RIOT
/// clears its interrupt flags when they are read); inspecting never does.
pub trait Device: Sized {
    /// Whether the device is in a consistent state.
    spec fn valid(&self) -> bool;

    /// What a read or an inspection of `address` gives.
    spec fn peek(&self, address: u16) -> ReadResult;

    /// Whether `next` is what the device becomes after a read of `address`.
    spec fn read_effect(&self, address: u16, next: Self) -> bool;

    /// Whether the device can take a write at `address`.
    spec fn writable(&self, address: u16) -> bool;

    /// The outcome of a write of `value` at `address`.
    spec fn write_result(&self, address: u16, value: u8) -> WriteResult;

    /// Whether `next` is what the device becomes after that write.
    spec fn write_effect(&self, address: u16, value: u8, next: Self) -> bool;

    /// Reads a byte without side effects.
    fn inspect(&self, address: u16) -> (r: ReadResult)
        requires
            self.valid(),
        ensures
            r == self.peek(address),
    ;

    /// Reads a byte, with the side effects that reading has.
    fn read(&mut self, address: u16) -> (r: ReadResult)
        requires
            old(self).valid(),
        ensures
            final(self).valid(),
            r == old(self).peek(address),
            old(self).read_effect(address, *final(self)),
    ;

    /// Writes a byte.
    fn write(&mut self, address: u16, value: u8) -> (r: WriteResult)
        requires
            old(self).valid(),
            old(self).writable(address),
        ensures
            final(self).valid(),
            r == old(self).write_result(address, value),
            old(self).write_effect(address, value, *final(self)),
    ;
}

impl Device for Tia {
    open spec fn valid(&self) -> bool {
        self.wf()
    }

    open spec fn peek(&self, address: u16) -> ReadResult {
        tia::tia_read_spec(self@, address)
    }

    open spec fn read_effect(&self, address: u16, next: Self) -> bool {
        next@ == self@
    }

    /// An unsupported register can only be written at an address below
    /// 0x100.
    open spec fn writable(&self, address: u16) -> bool {
        address < 0x100 || tia::supported_write_register(address & 0x3F)
    }

    open spec fn write_result(&self, address: u16, value: u8) -> WriteResult {
        tia::tia_write_spec(self@, address, value).1
    }

    open spec fn write_effect(&self, address: u16, value: u8, next: Self) -> bool {
        next@ == tia::tia_write_spec(self@, address, value).0
    }

    fn inspect(&self, address: u16) -> (r: ReadResult) {
        Tia::read(self, address)
    }

    fn read(&mut self, address: u16) -> (r: ReadResult) {
        Tia::read(self, address)
    }

    fn write(&mut self, address: u16, value: u8) -> (r: WriteResult) {
        Tia::write(self, address, value)
    }
}

impl Device for AtariRam {
    open spec fn valid(&self) -> bool {
        self.wf()
    }

    open spec fn peek(&self, address: u16) -> ReadResult {
        Ok(self@[ram_cell(address)])
    }

    open spec fn read_effect(&self, address: u16, next: Self) -> bool {
        next@ == self@
    }

    open spec fn writable(&self, address: u16) -> bool {
        true
    }

    open spec fn write_result(&self, address: u16, value: u8) -> WriteResult {
        Ok(())
    }

    open spec fn write_effect(&self, address: u16, value: u8, next: Self) -> bool {
        next@ == self@.update(ram_cell(address), value)
    }

    fn inspect(&self, address: u16) -> (r: ReadResult) {
        AtariRam::inspect(self, address)
    }

    fn read(&mut self, address: u16) -> (r: ReadResult) {
        AtariRam::read(self, address)
    }

    fn write(&mut self, address: u16, value: u8) -> (r: WriteResult) {
        let _ = AtariRam::write(self, address, value);
        Ok(())
    }
}

impl Device for Riot {
    open spec fn valid(&self) -> bool {
        self.wf()
    }

    open spec fn peek(&self, address: u16) -> ReadResult {
        riot::inspect_spec(self@, address)
    }

    open spec fn read_effect(&self, address: u16, next: Self) -> bool {
        next@ == riot::after_read_spec(self@, address)
    }

    open spec fn writable(&self, address: u16) -> bool {
        true
    }

    open spec fn write_result(&self, address: u16, value: u8) -> WriteResult {
        riot::write_result_spec(address, value)
    }

    open spec fn write_effect(&self, address: u16, value: u8, next: Self) -> bool {
        next@ == riot::after_write_spec(self@, address, value)
    }

    fn inspect(&self, address: u16) -> (r: ReadResult) {
        Riot::inspect(self, address)
    }

    fn read(&mut self, address: u16) -> (r: ReadResult) {
        Riot::read(self, address)
    }

    fn write(&mut self, address: u16, value: u8) -> (r: WriteResult) {
        Riot::write(self, address, value)
    }
}

impl Device for Rom {
    open spec fn valid(&self) -> bool {
        self.wf()
    }

    open spec fn peek(&self, address: u16) -> ReadResult {
        Ok(self@[(address & self.mask()) as int])
    }

    open spec fn read_effect(&self, address: u16, next: Self) -> bool {
        next@ == self@ && next.mask() == self.mask()
    }

    open spec fn writable(&self, address: u16) -> bool {
        true
    }

    /// A ROM refuses every write.
    open spec fn write_result(&self, address: u16, value: u8) -> WriteResult {
        Err(WriteError { address, value })
    }

    open spec fn write_effect(&self, address: u16, value: u8, next: Self) -> bool {
        next@ == self@ && next.mask() == self.mask()
    }

    fn inspect(&self, address: u16) -> (r: ReadResult) {
        Rom::read(self, address)
    }

    fn read(&mut self, address: u16) -> (r: ReadResult) {
        Rom::read(self, address)
    }

    fn write(&mut self, address: u16, value: u8) -> (r: WriteResult) {
        Err(WriteError { address, value })
    }
}

impl Device for Ram {
    open spec fn valid(&self) -> bool {
        self@.len() > 0
    }

    open spec fn peek(&self, address: u16) -> ReadResult {
        <Ram as crate::memory::Memory>::read_spec(self, address)
    }

    open spec fn read_effect(&self, address: u16, next: Self) -> bool {
        next@ == self@
    }

    open spec fn writable(&self, address: u16) -> bool {
        true
    }

    open spec fn write_result(&self, address: u16, value: u8) -> WriteResult {
        <Ram as crate::memory::Memory>::write_spec(self, address, value)
    }

    open spec fn write_effect(&self, address: u16, value: u8, next: Self) -> bool {
        <Ram as crate::memory::Memory>::after_write(self, address, value, next)
    }

    fn inspect(&self, address: u16) -> (r: ReadResult) {
        <Ram as crate::memory::Memory>::read(self, address)
    }

    fn read(&mut self, address: u16) -> (r: ReadResult) {
        <Ram as crate::memory::Memory>::read(self, address)
    }

    fn write(&mut self, address: u16, value: u8) -> (r: WriteResult) {
        <Ram as crate::memory::Memory>::write(self, address, value)
    }
}

/// Dispatches reads and writes to the devices with memory-mapped interfaces:
/// the TIA, the RAM, the RIOT and the ROM.
pub struct AddressSpace<T: Device, RA: Device, RI: Device, RO: Device> {
    pub tia: T,
    pub ram: RA,
    pub riot: RI,
    pub rom: RO,
}

impl<T: Device, RA: Device, RI: Device, RO: Device> Device for AddressSpace<T, RA, RI, RO> {
    open spec fn valid(&self) -> bool {
        &&& self.tia.valid()
        &&& self.ram.valid()
        &&& self.riot.valid()
        &&& self.rom.valid()
    }

    open spec fn peek(&self, address: u16) -> ReadResult {
        match area_of(address) {
            Some(MemoryArea::Tia) => self.tia.peek(address),
            Some(MemoryArea::Ram) => self.ram.peek(address),
            Some(MemoryArea::Riot) => self.riot.peek(address),
            Some(MemoryArea::Rom) => self.rom.peek(address),
            None => Err(ReadError { address }),
        }
    }

    open spec fn read_effect(&self, address: u16, next: Self) -> bool {
        match area_of(address) {
            Some(MemoryArea::Tia) => self.tia.read_effect(address, next.tia) && next == (
            AddressSpace { tia: next.tia, ..*self }),
            Some(MemoryArea::Ram) => self.ram.read_effect(address, next.ram) && next == (
            AddressSpace { ram: next.ram, ..*self }),
            Some(MemoryArea::Riot) => self.riot.read_effect(address, next.riot) && next == (
            AddressSpace { riot: next.riot, ..*self }),
            Some(MemoryArea::Rom) => self.rom.read_effect(address, next.rom) && next == (
            AddressSpace { rom: next.rom, ..*self }),
            None => next == *self,
        }
    }

    open spec fn writable(&self, address: u16) -> bool {
        match area_of(address) {
            Some(MemoryArea::Tia) => self.tia.writable(address),
            Some(MemoryArea::Ram) => self.ram.writable(address),
            Some(MemoryArea::Riot) => self.riot.writable(address),
            _ => true,
        }
    }

    /// Writes to the ROM area are accepted and change nothing.
    open spec fn write_result(&self, address: u16, value: u8) -> WriteResult {
        match area_of(address) {
            Some(MemoryArea::Tia) => self.tia.write_result(address, value),
            Some(MemoryArea::Ram) => self.ram.write_result(address, value),
            Some(MemoryArea::Riot) => self.riot.write_result(address, value),
            Some(MemoryArea::Rom) => Ok(()),
            None => Err(WriteError { address, value }),
        }
    }

    open spec fn write_effect(&self, address: u16, value: u8, next: Self) -> bool {
        match area_of(address) {
            Some(MemoryArea::Tia) => self.tia.write_effect(address, value, next.tia) && next == (
            AddressSpace { tia: next.tia, ..*self }),
            Some(MemoryArea::Ram) => self.ram.write_effect(address, value, next.ram) && next == (
            AddressSpace { ram: next.ram, ..*self }),
            Some(MemoryArea::Riot) => self.riot.write_effect(address, value, next.riot) && next == (
            AddressSpace { riot: next.riot, ..*self }),
            _ => next == *self,
        }
    }

    fn inspect(&self, address: u16) -> (r: ReadResult) {
        match map_address(address) {
            Some(MemoryArea::Tia) => self.tia.inspect(address),
            Some(MemoryArea::Ram) => self.ram.inspect(address),
            Some(MemoryArea::Riot) => self.riot.inspect(address),
            Some(MemoryArea::Rom) => self.rom.inspect(address),
            None => Err(ReadError { address }),
        }
    }

    fn read(&mut self, address: u16) -> (r: ReadResult) {
        match map_address(address) {
            Some(MemoryArea::Tia) => self.tia.read(address),
            Some(MemoryArea::Ram) => self.ram.read(address),
            Some(MemoryArea::Riot) => self.riot.read(address),
            Some(MemoryArea::Rom) => self.rom.read(address),
            None => Err(ReadError { address }),
        }
    }

    fn write(&mut self, address: u16, value: u8) -> (r: WriteResult) {
        match map_address(address) {
            Some(MemoryArea::Tia) => self.tia.write(address, value),
            Some(MemoryArea::Ram) => self.ram.write(address, value),
            Some(MemoryArea::Riot) => self.riot.write(address, value),
            Some(MemoryArea::Rom) => Ok(()),
            None => Err(WriteError { address, value }),
        }
    }
}

/// Bus law: an inspection gives what a read gives, and a read or a write
/// leaves every device but the one at the address alone.
pub proof fn lemma_bus_touches_one_device<T: Device, RA: Device, RI: Device, RO: Device>(
    space: AddressSpace<T, RA, RI, RO>,
    address: u16,
    value: u8,
    after_read: AddressSpace<T, RA, RI, RO>,
    after_write: AddressSpace<T, RA, RI, RO>,
)
    requires
        space.read_effect(address, after_read),
        space.write_effect(address, value, after_write),
    ensures
        area_of(address) != Some(MemoryArea::Tia) ==> after_read.tia == space.tia
            && after_write.tia == space.tia,
        area_of(address) != Some(MemoryArea::Ram) ==> after_read.ram == space.ram
            && after_write.ram == space.ram,
        area_of(address) != Some(MemoryArea::Riot) ==> after_read.riot == space.riot
            && after_write.riot == space.riot,
        after_write.rom == space.rom,
{
}

} // verus!
