use vstd::prelude::*;

verus! {

/// Error reported when reading from an unsupported location.
#[derive(Debug, Clone, Copy, PartialEq, Eq, Structural)]
pub struct ReadError {
    pub address: u16,
}

/// Error reported when writing to an unsupported location.
#[derive(Debug, Clone, Copy, PartialEq, Eq, Structural)]
pub struct WriteError {
    pub address: u16,
    pub value: u8,
}

pub type ReadResult = Result<u8, ReadError>;

pub type WriteResult = Result<(), WriteError>;

/// A memory-mapped device. Reading never changes the device; writing may.
pub trait Memory: Sized {
    /// What a read from `address` gives.
    spec fn read_spec(&self, address: u16) -> ReadResult;

    /// The outcome of writing `value` at `address`.
    spec fn write_spec(&self, address: u16, value: u8) -> WriteResult;

    /// Whether `next` is what the device becomes after a write of `value` at
    /// `address`.
    spec fn after_write(&self, address: u16, value: u8, next: Self) -> bool;

    /// Writes a byte to given address. Returns error if the location is
    /// unsupported.
    fn write(&mut self, address: u16, value: u8) -> (r: WriteResult)
        ensures
            r == old(self).write_spec(address, value),
            old(self).after_write(address, value, *final(self)),
    ;

    /// Reads a byte from given address. Returns the byte or error if the
    /// location is unsupported.
    fn read(&self, address: u16) -> (r: ReadResult)
        ensures
            r == self.read_spec(address),
    ;
}

/// The size of a `SimpleRam`: the whole 16-bit address space.
pub const SIMPLE_RAM_SIZE: usize = 0x10000;

/// A very simple memory structure. At the moment, it's just a 64-kilobyte chunk
/// of RAM, for simplicity of addressing.
pub struct SimpleRam {
    pub bytes: Vec<u8>,
}

impl SimpleRam {
    /// A RAM always holds exactly 64 kB.
    pub open spec fn wf(&self) -> bool {
        self.bytes@.len() == SIMPLE_RAM_SIZE
    }

    pub fn new() -> (ram: SimpleRam)
        ensures
            ram.wf(),
            forall|i: int| 0 <= i < SIMPLE_RAM_SIZE ==> ram.bytes@[i] == 0,
    {
        SimpleRam::initialized_with(0)
    }

    pub fn initialized_with(value: u8) -> (ram: SimpleRam)
        ensures
            ram.wf(),
            forall|i: int| 0 <= i < SIMPLE_RAM_SIZE ==> ram.bytes@[i] == value,
    {
        SimpleRam { bytes: vec![value; SIMPLE_RAM_SIZE] }
    }

    /// Creates a RAM that holds `program` from address 0xF000 on. A 2K
    /// cartridge is placed in two mirror copies, at 0xF000 and at 0xF800.
    pub fn with_program(program: &[u8]) -> (ram: SimpleRam)
        requires
            program@.len() <= 0x1000,
        ensures
            ram.wf(),
            forall|i: int|
                #![trigger ram.bytes@[i]]
                0 <= i < SIMPLE_RAM_SIZE ==> ram.bytes@[i] == program_image(program@, i),
    {
        let mut ram = SimpleRam::new();
        let mirrored = program.len() == 0x800;
        let mut i: usize = 0;
        while i < program.len()
            invariant
                ram.wf(),
                program@.len() <= 0x1000,
                mirrored == (program@.len() == 0x800),
                0 <= i <= program@.len(),
                forall|j: int|
                    #![trigger ram.bytes@[j]]
                    0 <= j < SIMPLE_RAM_SIZE ==> ram.bytes@[j] == (
                        if 0xF000 <= j < 0xF000 + i {
                            program@[j - 0xF000]
                        } else if mirrored && 0xF800 <= j < 0xF800 + i {
                            program@[j - 0xF800]
                        } else {
                            0u8
                        }),
            decreases program@.len() - i,
        {
            ram.bytes.set(0xF000 + i, program[i]);
            if mirrored {
                ram.bytes.set(0xF800 + i, program[i]);
            }
            i = i + 1;
        }
        ram
    }

    /// Creates a new `SimpleRam`, putting given `program` at address 0xF000.
    /// It also sets the reset pointer to 0xF000.
    pub fn with_test_program(program: &[u8]) -> (ram: SimpleRam)
        requires
            program@.len() <= 0x1000,
        ensures
            ram.wf(),
            forall|i: int|
                #![trigger ram.bytes@[i]]
                0 <= i < SIMPLE_RAM_SIZE ==> ram.bytes@[i] == test_program_image(program@, i),
    {
        let mut ram = SimpleRam::new();
        let mut i: usize = 0;
        while i < program.len()
            invariant
                ram.wf(),
                program@.len() <= 0x1000,
                0 <= i <= program@.len(),
                forall|j: int|
                    #![trigger ram.bytes@[j]]
                    0 <= j < SIMPLE_RAM_SIZE ==> ram.bytes@[j] == (
                        if 0xF000 <= j < 0xF000 + i {
                            program@[j - 0xF000]
                        } else {
                            0u8
                        }),
            decreases program@.len() - i,
        {
            ram.bytes.set(0xF000 + i, program[i]);
            i = i + 1;
        }
        // Initialize the reset address (stored at 0xFFFC) to 0xF000.
        ram.bytes.set(0xFFFC, 0x00);  // least-significant byte
        ram.bytes.set(0xFFFD, 0xF0);  // most-significant byte
        ram
    }

    /// Reads a range of bytes. Always succeeds.
    pub fn raw_read(&self, start: u16, end: u16) -> (r: &[u8])
        requires
            self.wf(),
            start <= end,
        ensures
            r@ == self.bytes@.subrange(start as int, end as int),
    {
        let s = self.bytes.as_slice();
        &s[start as usize..end as usize]
    }
}

/// The byte at `address` of a RAM made by `SimpleRam::with_program`.
pub open spec fn program_image(program: Seq<u8>, address: int) -> u8 {
    if 0xF000 <= address < 0xF000 + program.len() {
        program[address - 0xF000]
    } else if program.len() == 0x800 && 0xF800 <= address < 0xF800 + program.len() {
        program[address - 0xF800]
    } else {
        0
    }
}

/// The byte at `address` of a RAM made by `SimpleRam::with_test_program`: the
/// program at 0xF000 and a reset vector pointing there.
pub open spec fn test_program_image(program: Seq<u8>, address: int) -> u8 {
    if address == 0xFFFC {
        0x00
    } else if address == 0xFFFD {
        0xF0
    } else if 0xF000 <= address < 0xF000 + program.len() {
        program[address - 0xF000]
    } else {
        0
    }
}

impl Memory for SimpleRam {
    open spec fn read_spec(&self, address: u16) -> ReadResult {
        if self.wf() {
            Ok(self.bytes@[address as int])
        } else {
            Err(ReadError { address })
        }
    }

    open spec fn write_spec(&self, address: u16, value: u8) -> WriteResult {
        if self.wf() {
            Ok(())
        } else {
            Err(WriteError { address, value })
        }
    }

    open spec fn after_write(&self, address: u16, value: u8, next: Self) -> bool {
        if self.wf() {
            next.bytes@ == self.bytes@.update(address as int, value)
        } else {
            next.bytes@ == self.bytes@
        }
    }

    fn read(&self, address: u16) -> (r: ReadResult) {
        if self.bytes.len() == SIMPLE_RAM_SIZE {
            Ok(self.bytes[address as usize])
        } else {
            Err(ReadError { address })
        }
    }

    fn write(&mut self, address: u16, value: u8) -> (r: WriteResult) {
        if self.bytes.len() == SIMPLE_RAM_SIZE {
            self.bytes.set(address as usize, value);
            Ok(())
        } else {
            Err(WriteError { address, value })
        }
    }
}

/// The number of bytes that `address_bits` address lines reach.
pub open spec fn lines_size(address_bits: nat) -> nat
    decreases address_bits,
{
    if address_bits == 0 {
        1
    } else {
        2 * lines_size((address_bits - 1) as nat)
    }
}

proof fn lemma_lines_size_bound(address_bits: nat)
    requires
        address_bits <= 16,
    ensures
        1 <= lines_size(address_bits) <= 0x10000,
    decreases address_bits,
{
    if address_bits > 0 {
        lemma_lines_size_bound((address_bits - 1) as nat);
    }
    lemma_lines_size_monotonic(address_bits, 16);
    assert(lines_size(16) == 0x10000) by {
        reveal_with_fuel(lines_size, 17);
    }
}

/// A RAM that decodes only some address lines: its contents repeat over the
/// address space, an address reaching the byte at its remainder modulo the
/// size.
pub struct Ram {
    bytes: Vec<u8>,
}

impl View for Ram {
    type V = Seq<u8>;

    closed spec fn view(&self) -> Seq<u8> {
        self.bytes@
    }
}

impl Ram {
    /// A RAM with `address_bits` address lines, all bytes 0.
    pub fn new(address_bits: u8) -> (r: Ram)
        requires
            address_bits <= 16,
        ensures
            r@ == Seq::new(lines_size(address_bits as nat), |i: int| 0u8),
    {
        Ram::initialized_with(0, address_bits)
    }

    /// A RAM with `address_bits` address lines, all bytes `value`.
    pub fn initialized_with(value: u8, address_bits: u8) -> (r: Ram)
        requires
            address_bits <= 16,
        ensures
            r@ == Seq::new(lines_size(address_bits as nat), |i: int| value),
    {
        proof {
            lemma_lines_size_bound(address_bits as nat);
        }
        let mut size: usize = 1;
        let mut bits: u8 = 0;
        while bits < address_bits
            invariant
                bits <= address_bits <= 16,
                size == lines_size(bits as nat),
                lines_size(address_bits as nat) <= 0x10000,
            decreases address_bits - bits,
        {
            proof {
                lemma_lines_size_monotonic((bits + 1) as nat, address_bits as nat);
            }
            size = size * 2;
            bits = bits + 1;
        }
        let bytes: Vec<u8> = vec![value; size];
        Ram { bytes }
    }
}

proof fn lemma_lines_size_monotonic(a: nat, b: nat)
    requires
        a <= b,
    ensures
        lines_size(a) <= lines_size(b),
    decreases b,
{
    if a < b {
        lemma_lines_size_monotonic(a, (b - 1) as nat);
    }
}

impl Memory for Ram {
    open spec fn read_spec(&self, address: u16) -> ReadResult {
        if self@.len() > 0 {
            Ok(self@[(address as int) % (self@.len() as int)])
        } else {
            Err(ReadError { address })
        }
    }

    open spec fn write_spec(&self, address: u16, value: u8) -> WriteResult {
        if self@.len() > 0 {
            Ok(())
        } else {
            Err(WriteError { address, value })
        }
    }

    open spec fn after_write(&self, address: u16, value: u8, next: Self) -> bool {
        if self@.len() > 0 {
            next@ == self@.update((address as int) % (self@.len() as int), value)
        } else {
            next@ == self@
        }
    }

    fn read(&self, address: u16) -> (r: ReadResult) {
        let len = self.bytes.len();
        if len > 0 {
            Ok(self.bytes[address as usize % len])
        } else {
            Err(ReadError { address })
        }
    }

    fn write(&mut self, address: u16, value: u8) -> (r: WriteResult) {
        let len = self.bytes.len();
        if len > 0 {
            self.bytes.set(address as usize % len, value);
            Ok(())
        } else {
            Err(WriteError { address, value })
        }
    }
}

/// A ROM image that is empty or larger than the address space.
#[derive(Debug, Clone, Copy, PartialEq, Eq, Structural)]
pub struct RomSizeError {
    pub size: usize,
}

/// A read-only memory whose image repeats over the address space, an address
/// reaching the byte at its remainder modulo the image size.
pub struct Rom {
    bytes: Vec<u8>,
}

impl View for Rom {
    type V = Seq<u8>;

    closed spec fn view(&self) -> Seq<u8> {
        self.bytes@
    }
}

impl Rom {
    /// A ROM holding `bytes`, which must be 1 to 64 kB long.
    pub fn new(bytes: &[u8]) -> (r: Result<Rom, RomSizeError>)
        ensures
            match r {
                Ok(rom) => rom@ == bytes@ && 1 <= bytes@.len() <= 0x10000,
                Err(e) => e.size == bytes@.len() && !(1 <= bytes@.len() <= 0x10000),
            },
    {
        let len = bytes.len();
        if len == 0 || len > 0x10000 {
            return Err(RomSizeError { size: len });
        }
        let mut image: Vec<u8> = Vec::new();
        let mut i: usize = 0;
        while i < len
            invariant
                len == bytes@.len(),
                i <= len,
                image@ == bytes@.subrange(0, i as int),
            decreases len - i,
        {
            image.push(bytes[i]);
            assert(bytes@.subrange(0, i + 1) == bytes@.subrange(0, i as int).push(bytes@[i as int]));
            i = i + 1;
        }
        assert(bytes@.subrange(0, len as int) == bytes@);
        Ok(Rom { bytes: image })
    }
}

impl Memory for Rom {
    open spec fn read_spec(&self, address: u16) -> ReadResult {
        if self@.len() > 0 {
            Ok(self@[(address as int) % (self@.len() as int)])
        } else {
            Err(ReadError { address })
        }
    }

    /// A ROM refuses every write.
    open spec fn write_spec(&self, address: u16, value: u8) -> WriteResult {
        Err(WriteError { address, value })
    }

    open spec fn after_write(&self, address: u16, value: u8, next: Self) -> bool {
        next@ == self@
    }

    fn read(&self, address: u16) -> (r: ReadResult) {
        let len = self.bytes.len();
        if len > 0 {
            Ok(self.bytes[address as usize % len])
        } else {
            Err(ReadError { address })
        }
    }

    fn write(&mut self, address: u16, value: u8) -> (r: WriteResult) {
        Err(WriteError { address, value })
    }
}

} // verus!
