use crate::memory::{ReadResult, WriteResult};
use vstd::prelude::*;

verus! {

/// A ROM image of a size that the Atari 2600 does not support.
#[derive(Debug, Clone, Copy, PartialEq, Eq, Structural)]
pub struct RomSizeError {
    pub size: usize,
}

/// A read-only memory that mirrors its image over the address space: an
/// address is looked up after masking with `address_mask`.
#[derive(Debug)]
pub struct Rom {
    bytes: Vec<u8>,
    address_mask: u16,
}

impl View for Rom {
    type V = Seq<u8>;

    closed spec fn view(&self) -> Seq<u8> {
        self.bytes@
    }
}

impl Rom {
    /// The mask applied to addresses.
    pub closed spec fn mask(&self) -> u16 {
        self.address_mask
    }

    /// Every masked address falls inside the image.
    pub open spec fn wf(&self) -> bool {
        self@.len() == self.mask() + 1
    }

    /// Reads the byte at `address`, which is mirrored by masking.
    pub fn read(&self, address: u16) -> (r: ReadResult)
        requires
            self.wf(),
        ensures
            r == Ok::<u8, crate::memory::ReadError>(self@[(address & self.mask()) as int]),
    {
        let mask = self.address_mask;
        proof {
            crate::bits::lemma_word_mask_bound(address, mask);
        }
        Ok(self.bytes[(address & mask) as usize])
    }
}

/// Whether `len` is a ROM size that the Atari 2600 supports: 2 or 4 kB.
pub open spec fn valid_rom_size(len: int) -> bool {
    len == 2048 || len == 4096
}

/// Creates a ROM from a 2 kB or a 4 kB image. The image is mirrored over
/// the address space in its own size.
pub fn new_rom(bytes: &[u8]) -> (r: Result<Rom, RomSizeError>)
    ensures
        match r {
            Ok(rom) => {
                &&& valid_rom_size(bytes@.len() as int)
                &&& rom.wf()
                &&& rom@ == bytes@
                &&& rom.mask() == bytes@.len() - 1
            },
            Err(e) => !valid_rom_size(bytes@.len() as int) && e == RomSizeError {
                size: bytes@.len() as usize,
            },
        },
{
    let len = bytes.len();
    if len == 2048 || len == 4096 {
        let mut image: Vec<u8> = Vec::new();
        let mut i: usize = 0;
        while i < len
            invariant
                len == bytes@.len(),
                i <= len,
                image@ == bytes@.subrange(0, i as int),
            decreases len - i,
        {
            image.push(bytes[i]);
            assert(bytes@.subrange(0, i + 1) == bytes@.subrange(0, i as int).push(bytes@[i as int]));
            i = i + 1;
        }
        assert(bytes@.subrange(0, len as int) == bytes@);
        Ok(
            Rom {
                bytes: image,
                address_mask: if len == 0x1000 {
                    0b0000_1111_1111_1111
                } else {
                    0b0000_0111_1111_1111
                },
            },
        )
    } else {
        Err(RomSizeError { size: len })
    }
}

/// The size of the Atari RAM.
pub const ATARI_RAM_SIZE: usize = 0x80;

/// A 128-byte memory structure that acts as Atari RAM and supports memory space
/// mirroring.
#[derive(Debug)]
pub struct AtariRam {
    bytes: Vec<u8>,
}

impl View for AtariRam {
    type V = Seq<u8>;

    closed spec fn view(&self) -> Seq<u8> {
        self.bytes@
    }
}

/// The RAM cell that `address` reaches: its low 7 bits.
pub open spec fn ram_cell(address: u16) -> int {
    (address % 0x80) as int
}

impl AtariRam {
    pub open spec fn wf(&self) -> bool {
        self@.len() == ATARI_RAM_SIZE
    }

    pub fn new() -> (r: AtariRam)
        ensures
            r.wf(),
            forall|i: int| 0 <= i < ATARI_RAM_SIZE ==> r@[i] == 0,
    {
        AtariRam { bytes: vec![0; ATARI_RAM_SIZE] }
    }

    /// Reads the cell that `address` reaches.
    pub fn read(&mut self, address: u16) -> (r: ReadResult)
        requires
            old(self).wf(),
        ensures
            final(self)@ == old(self)@,
            r == Ok::<u8, crate::memory::ReadError>(old(self)@[ram_cell(address)]),
    {
        self.inspect(address)
    }

    /// Reads the cell that `address` reaches, without side effects.
    pub fn inspect(&self, address: u16) -> (r: ReadResult)
        requires
            self.wf(),
        ensures
            r == Ok::<u8, crate::memory::ReadError>(self@[ram_cell(address)]),
    {
        proof {
            lemma_ram_index(address);
        }
        Ok(self.bytes[address as usize & 0b0111_1111])
    }

    /// Writes the cell that `address` reaches.
    pub fn write(&mut self, address: u16, value: u8) -> (r: WriteResult)
        requires
            old(self).wf(),
        ensures
            final(self).wf(),
            final(self)@ == old(self)@.update(ram_cell(address), value),
            r is Ok,
    {
        proof {
            lemma_ram_index(address);
        }
        self.bytes.set(address as usize & 0b0111_1111, value);
        Ok(())
    }
}

/// Mirroring law: two addresses with the same low 7 bits reach the same RAM
/// cell, so a write through one is read back through the other.
pub proof fn lemma_ram_mirroring(a: u16, b: u16, contents: Seq<u8>, value: u8)
    requires
        a % 0x80 == b % 0x80,
        contents.len() == ATARI_RAM_SIZE,
    ensures
        contents.update(ram_cell(a), value)[ram_cell(b)] == value,
{
}

/// What a RAM holding `contents` holds after the `(address, value)` writes
/// of `writes`, in order.
pub open spec fn ram_after_writes(contents: Seq<u8>, writes: Seq<(u16, u8)>) -> Seq<u8>
    decreases writes.len(),
{
    if writes.len() == 0 {
        contents
    } else {
        ram_after_writes(contents, writes.drop_last()).update(ram_cell(writes.last().0), writes.last().1)
    }
}

/// The value of the last of `writes` whose address reaches the same cell as
/// `address`, if there is one.
pub open spec fn last_write_to(writes: Seq<(u16, u8)>, address: u16) -> Option<u8>
    decreases writes.len(),
{
    if writes.len() == 0 {
        None
    } else if writes.last().0 % 0x80 == address % 0x80 {
        Some(writes.last().1)
    } else {
        last_write_to(writes.drop_last(), address)
    }
}

/// Read-after-writes law: after any sequence of writes, a read through any
/// address gives the value of the last write through an address with the
/// same low 7 bits, or what the cell held before if there was none. On a
/// fresh RAM (`AtariRam::new`), that is 0.
pub proof fn lemma_read_after_writes(contents: Seq<u8>, writes: Seq<(u16, u8)>, address: u16)
    requires
        contents.len() == ATARI_RAM_SIZE,
    ensures
        ram_after_writes(contents, writes).len() == ATARI_RAM_SIZE,
        ram_after_writes(contents, writes)[ram_cell(address)] == match last_write_to(writes, address) {
            Some(v) => v,
            None => contents[ram_cell(address)],
        },
    decreases writes.len(),
{
    if writes.len() > 0 {
        lemma_read_after_writes(contents, writes.drop_last(), address);
    }
}

/// The RAM cell that an address reaches is its low seven bits.
proof fn lemma_ram_index(address: u16)
    by (bit_vector)
    ensures
        address as usize & 0b0111_1111 == address % 0x80,
{
}

} // verus!
