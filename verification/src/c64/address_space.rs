//! The C64 address space as the 6510 CPU sees it through the PLA, and the
//! address space as the VIC-II sees it.
use crate::c64::port::{port_value, Port};
use crate::memory::{Memory, Ram, ReadError, ReadResult, Rom, WriteError, WriteResult};
use vstd::prelude::*;

verus! {

/// Types of cartridge ROM available in the C64 architecture.
#[derive(Debug, Clone, Copy, PartialEq, Eq, Structural)]
pub enum CartridgeMode {
    /// Standard 8KiB cartridge ($8000-$9FFF)
    Standard8k,
    /// Standard 16KiB cartridge ($8000-$BFFF)
    Standard16k,
    /// Ultimax 16KiB cartridge ($8000-$9FFF, $E000-$FFFF).
    Ultimax,
}

/// A cartridge plugged into the expansion port.
pub struct Cartridge {
    pub mode: CartridgeMode,
    pub rom: Rom,
}

/// The C64 address space, as visible from the 6510 CPU, through the PLA chip.
/// It also handles the CPU port at addresses 0x0000 and 0x0001, since the
/// port controls the layout of the address space.
pub struct AddressSpace<VIC: Memory, SID: Memory, CIA: Memory> {
    pub cpu_port: Port,
    pub ram: Ram,
    pub basic_rom: Rom,
    pub vic: VIC,
    pub sid: SID,
    pub color_ram: Ram,
    pub cia1: CIA,
    pub cia2: CIA,
    pub kernal_rom: Rom,
    pub cartridge: Option<Cartridge>,
}

/// The value that the CPU port starts with on its pins: bits 0-2 and 4 are
/// pulled up, bit 5 reads the motor driver and bit 3 floats.
pub const CPU_PORT_PULL_UPS: u8 = 0b0011_0111;

/// The bits of the CPU port register that must stay set: the memory layout
/// is fixed and the datasette motor stays off.
pub const CPU_PORT_FIXED_BITS: u8 = 0b0010_0111;

impl<VIC: Memory, SID: Memory, CIA: Memory> AddressSpace<VIC, SID, CIA> {
    /// An address space over the given memories and chips, with no cartridge
    /// and the CPU port at its power-on state.
    pub fn new(
        ram: Ram,
        basic_rom: Rom,
        vic: VIC,
        sid: SID,
        color_ram: Ram,
        cia1: CIA,
        cia2: CIA,
        kernal_rom: Rom,
    ) -> (r: Self)
        ensures
            r.cpu_port.direction == 0,
            r.cpu_port.register == 0,
            r.cpu_port.pins == CPU_PORT_PULL_UPS,
            r.ram == ram,
            r.basic_rom == basic_rom,
            r.vic == vic,
            r.sid == sid,
            r.color_ram == color_ram,
            r.cia1 == cia1,
            r.cia2 == cia2,
            r.kernal_rom == kernal_rom,
            r.cartridge is None,
    {
        let mut cpu_port = Port::default();
        cpu_port.pins = CPU_PORT_PULL_UPS;
        AddressSpace {
            cpu_port,
            ram,
            basic_rom,
            vic,
            sid,
            color_ram,
            cia1,
            cia2,
            kernal_rom,
            cartridge: None,
        }
    }

    /// The VIC-II chip, to be changed.
    pub fn mut_vic(&mut self) -> (r: &mut VIC)
        ensures
            *r == old(self).vic,
            *final(self) == (AddressSpace { vic: *final(r), ..*old(self) }),
    {
        &mut self.vic
    }

    /// The first CIA chip, to be changed.
    pub fn mut_cia1(&mut self) -> (r: &mut CIA)
        ensures
            *r == old(self).cia1,
            *final(self) == (AddressSpace { cia1: *final(r), ..*old(self) }),
    {
        &mut self.cia1
    }
}

/// Whether a cartridge of a given mode shows its ROM at the BASIC ROM area.
pub open spec fn covers_basic(cartridge: Option<Cartridge>) -> bool {
    cartridge matches Some(c) && c.mode == CartridgeMode::Standard16k
}

/// Whether a cartridge of a given mode shows its ROM at the KERNAL ROM area.
pub open spec fn covers_kernal(cartridge: Option<Cartridge>) -> bool {
    cartridge matches Some(c) && c.mode == CartridgeMode::Ultimax
}

impl<VIC: Memory, SID: Memory, CIA: Memory> Memory for AddressSpace<VIC, SID, CIA> {
    /// The CPU port at 0 and 1; the cartridge or RAM at 0x8000-0x9FFF; a
    /// 16 kB cartridge or BASIC at 0xA000-0xBFFF; the VIC, SID, color RAM
    /// and the CIAs in the I/O area, where 0xDE00-0xDFFF is unmapped; an
    /// Ultimax cartridge or the KERNAL at 0xE000-0xFFFF; RAM elsewhere.
    open spec fn read_spec(&self, address: u16) -> ReadResult {
        if address == 0 {
            Ok(self.cpu_port.direction)
        } else if address == 1 {
            Ok(port_value(self.cpu_port.direction, self.cpu_port.register, self.cpu_port.pins))
        } else if 0x8000 <= address <= 0x9FFF {
            match self.cartridge {
                Some(c) => c.rom.read_spec(address),
                None => self.ram.read_spec(address),
            }
        } else if 0xA000 <= address <= 0xBFFF {
            if covers_basic(self.cartridge) {
                self.cartridge->0.rom.read_spec(address)
            } else {
                self.basic_rom.read_spec(address)
            }
        } else if 0xD000 <= address <= 0xD3FF {
            self.vic.read_spec(address)
        } else if 0xD400 <= address <= 0xD7FF {
            self.sid.read_spec(address)
        } else if 0xD800 <= address <= 0xDBFF {
            self.color_ram.read_spec(address)
        } else if 0xDC00 <= address <= 0xDCFF {
            self.cia1.read_spec(address)
        } else if 0xDD00 <= address <= 0xDDFF {
            self.cia2.read_spec(address)
        } else if 0xDE00 <= address <= 0xDFFF {
            Err(ReadError { address })
        } else if 0xE000 <= address {
            if covers_kernal(self.cartridge) {
                self.cartridge->0.rom.read_spec(address)
            } else {
                self.kernal_rom.read_spec(address)
            }
        } else {
            self.ram.read_spec(address)
        }
    }

    /// Writes to ROM areas reach the RAM below them. The CPU port register
    /// only takes values that keep the memory layout and the datasette motor
    /// off.
    open spec fn write_spec(&self, address: u16, value: u8) -> WriteResult {
        if address == 0 {
            Ok(())
        } else if address == 1 {
            if value & CPU_PORT_FIXED_BITS == CPU_PORT_FIXED_BITS {
                Ok(())
            } else {
                Err(WriteError { address, value })
            }
        } else if 0xD000 <= address <= 0xD3FF {
            self.vic.write_spec(address, value)
        } else if 0xD400 <= address <= 0xD7FF {
            self.sid.write_spec(address, value)
        } else if 0xD800 <= address <= 0xDBFF {
            self.color_ram.write_spec(address, value)
        } else if 0xDC00 <= address <= 0xDCFF {
            self.cia1.write_spec(address, value)
        } else if 0xDD00 <= address <= 0xDDFF {
            self.cia2.write_spec(address, value)
        } else if 0xDE00 <= address <= 0xDFFF {
            Err(WriteError { address, value })
        } else {
            self.ram.write_spec(address, value)
        }
    }

    open spec fn after_write(&self, address: u16, value: u8, next: Self) -> bool {
        if address == 0 {
            next == (AddressSpace {
                cpu_port: Port { direction: value, ..self.cpu_port },
                ..*self
            })
        } else if address == 1 {
            if value & CPU_PORT_FIXED_BITS == CPU_PORT_FIXED_BITS {
                next == (AddressSpace {
                    cpu_port: Port { register: value, ..self.cpu_port },
                    ..*self
                })
            } else {
                next == *self
            }
        } else if 0xD000 <= address <= 0xD3FF {
            next == (AddressSpace { vic: next.vic, ..*self }) && self.vic.after_write(
                address,
                value,
                next.vic,
            )
        } else if 0xD400 <= address <= 0xD7FF {
            next == (AddressSpace { sid: next.sid, ..*self }) && self.sid.after_write(
                address,
                value,
                next.sid,
            )
        } else if 0xD800 <= address <= 0xDBFF {
            next == (AddressSpace { color_ram: next.color_ram, ..*self })
                && self.color_ram.after_write(address, value, next.color_ram)
        } else if 0xDC00 <= address <= 0xDCFF {
            next == (AddressSpace { cia1: next.cia1, ..*self }) && self.cia1.after_write(
                address,
                value,
                next.cia1,
            )
        } else if 0xDD00 <= address <= 0xDDFF {
            next == (AddressSpace { cia2: next.cia2, ..*self }) && self.cia2.after_write(
                address,
                value,
                next.cia2,
            )
        } else if 0xDE00 <= address <= 0xDFFF {
            next == *self
        } else {
            next == (AddressSpace { ram: next.ram, ..*self }) && self.ram.after_write(
                address,
                value,
                next.ram,
            )
        }
    }

    fn read(&self, address: u16) -> (r: ReadResult) {
        if address == 0 {
            Ok(self.cpu_port.direction)
        } else if address == 1 {
            Ok(self.cpu_port.read())
        } else if 0x8000 <= address && address <= 0x9FFF {
            match &self.cartridge {
                Some(c) => c.rom.read(address),
                None => self.ram.read(address),
            }
        } else if 0xA000 <= address && address <= 0xBFFF {
            match &self.cartridge {
                Some(c) => match c.mode {
                    CartridgeMode::Standard16k => c.rom.read(address),
                    _ => self.basic_rom.read(address),
                },
                None => self.basic_rom.read(address),
            }
        } else if 0xD000 <= address && address <= 0xD3FF {
            self.vic.read(address)
        } else if 0xD400 <= address && address <= 0xD7FF {
            self.sid.read(address)
        } else if 0xD800 <= address && address <= 0xDBFF {
            self.color_ram.read(address)
        } else if 0xDC00 <= address && address <= 0xDCFF {
            self.cia1.read(address)
        } else if 0xDD00 <= address && address <= 0xDDFF {
            self.cia2.read(address)
        } else if 0xDE00 <= address && address <= 0xDFFF {
            Err(ReadError { address })
        } else if 0xE000 <= address {
            match &self.cartridge {
                Some(c) => match c.mode {
                    CartridgeMode::Ultimax => c.rom.read(address),
                    _ => self.kernal_rom.read(address),
                },
                None => self.kernal_rom.read(address),
            }
        } else {
            self.ram.read(address)
        }
    }

    fn write(&mut self, address: u16, value: u8) -> (r: WriteResult) {
        if address == 0 {
            self.cpu_port.direction = value;
            Ok(())
        } else if address == 1 {
            if value & CPU_PORT_FIXED_BITS == CPU_PORT_FIXED_BITS {
                self.cpu_port.register = value;
                Ok(())
            } else {
                Err(WriteError { address, value })
            }
        } else if 0xD000 <= address && address <= 0xD3FF {
            self.vic.write(address, value)
        } else if 0xD400 <= address && address <= 0xD7FF {
            self.sid.write(address, value)
        } else if 0xD800 <= address && address <= 0xDBFF {
            self.color_ram.write(address, value)
        } else if 0xDC00 <= address && address <= 0xDCFF {
            self.cia1.write(address, value)
        } else if 0xDD00 <= address && address <= 0xDDFF {
            self.cia2.write(address, value)
        } else if 0xDE00 <= address && address <= 0xDFFF {
            Err(WriteError { address, value })
        } else {
            self.ram.write(address, value)
        }
    }
}

/// Memory-map law: a byte written to plain RAM (outside the CPU port, the
/// ROM areas and the I/O area) reads back, and a byte written under the BASIC
/// or KERNAL ROM reaches the RAM there while the ROM still answers reads.
pub proof fn lemma_ram_write_reads_back<VIC: Memory, SID: Memory, CIA: Memory>(
    space: AddressSpace<VIC, SID, CIA>,
    next: AddressSpace<VIC, SID, CIA>,
    address: u16,
    value: u8,
)
    requires
        space.ram@.len() > 0,
        2 <= address,
        !(0xD000 <= address <= 0xDFFF),
        space.after_write(address, value, next),
    ensures
        space.write_spec(address, value) is Ok,
        next.ram.read_spec(address) == Ok::<u8, ReadError>(value),
        (2 <= address < 0x8000 || 0xC000 <= address < 0xD000) ==> next.read_spec(address) == Ok::<
            u8,
            ReadError,
        >(value),
        (0xA000 <= address <= 0xBFFF || 0xE000 <= address) ==> next.read_spec(address)
            == space.read_spec(address),
{
}

/// The address space as the VIC-II sees it: 16 kB, repeated over the whole
/// address space, with the character ROM at 0x1000-0x1FFF and RAM elsewhere.
/// The color RAM is not part of it; the VIC reaches it over its own lines.
pub struct VicAddressSpace<RAM: Memory, CHR: Memory> {
    pub ram: RAM,
    pub char_rom: CHR,
}

impl<RAM: Memory, CHR: Memory> VicAddressSpace<RAM, CHR> {
    pub fn new(ram: RAM, char_rom: CHR) -> (r: Self)
        ensures
            r.ram == ram,
            r.char_rom == char_rom,
    {
        VicAddressSpace { ram, char_rom }
    }
}

/// The address that a VIC-II address reaches: its 14 low bits.
pub open spec fn vic_bank_address(address: u16) -> u16 {
    (address % 0x4000) as u16
}

impl<RAM: Memory, CHR: Memory> Memory for VicAddressSpace<RAM, CHR> {
    open spec fn read_spec(&self, address: u16) -> ReadResult {
        let a = vic_bank_address(address);
        if 0x1000 <= a <= 0x1FFF {
            self.char_rom.read_spec(a)
        } else {
            self.ram.read_spec(a)
        }
    }

    /// The VIC-II never writes to memory.
    open spec fn write_spec(&self, address: u16, value: u8) -> WriteResult {
        Err(WriteError { address, value })
    }

    open spec fn after_write(&self, address: u16, value: u8, next: Self) -> bool {
        next == *self
    }

    fn read(&self, address: u16) -> (r: ReadResult) {
        assert(address & 0x3FFF == address % 0x4000) by (bit_vector);
        let a = address & 0x3FFF;
        if 0x1000 <= a && a <= 0x1FFF {
            self.char_rom.read(a)
        } else {
            self.ram.read(a)
        }
    }

    fn write(&mut self, address: u16, value: u8) -> (r: WriteResult) {
        Err(WriteError { address, value })
    }
}

} // verus!
