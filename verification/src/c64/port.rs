use vstd::prelude::*;

verus! {

/// An internal state of an 8-bit I/O port.
#[derive(Debug)]
pub struct Port {
    /// A direction register: each bit controls the direction of a given pin.
    /// 0=input, 1=input/output.
    pub direction: u8,
    /// The data register: holds the value as set from the inside of the chip.
    pub register: u8,
    /// Value set from the outside to the pins.
    pub pins: u8,
}

impl Default for Port {
    fn default() -> (r: Self)
        ensures
            r.direction == 0 && r.register == 0 && r.pins == 0,
    {
        Port { direction: 0, register: 0, pins: 0 }
    }
}

/// The value on the pins: the data register on output pins, the outside
/// value on input pins.
pub open spec fn port_value(direction: u8, register: u8, pins: u8) -> u8 {
    (register & direction) | (pins & !direction)
}

impl Port {
    /// Resolves the value on the pins. Assumes that bits where direction
    /// register is set to 1 are driven by the chip, and everything else is
    /// driven from outside.
    pub fn read(&self) -> (r: u8)
        ensures
            r == port_value(self.direction, self.register, self.pins),
    {
        (self.register & self.direction) | (self.pins & !self.direction)
    }
}

/// Port law: every pin reads the data register when it is an output and the
/// outside value when it is an input.
pub proof fn lemma_port_bits(direction: u8, register: u8, pins: u8, bit: u8)
    requires
        bit < 8,
    ensures
        (port_value(direction, register, pins) >> bit) & 1 == if (direction >> bit) & 1 == 1 {
            (register >> bit) & 1
        } else {
            (pins >> bit) & 1
        },
{
    assert(bit < 8 ==> (((register & direction) | (pins & !direction)) >> bit) & 1 == if (direction
        >> bit) & 1 == 1 {
        (register >> bit) & 1
    } else {
        (pins >> bit) & 1
    }) by (bit_vector);
}

} // verus!
