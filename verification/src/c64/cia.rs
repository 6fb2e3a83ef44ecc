pub mod flags;
pub mod registers;

use super::port::{port_value, Port};
use super::timer::{self, set_control_spec, supported_control, timer_tick_spec, Timer, TimerView};
use crate::memory::{ReadError, ReadResult, WriteError, WriteResult};
use vstd::prelude::*;

verus! {

#[derive(Debug, Clone, Copy, PartialEq, Eq, Structural)]
pub enum PortName {
    A,
    B,
}

/// A port's three registers.
pub struct PortView {
    pub direction: u8,
    pub register: u8,
    pub pins: u8,
}

pub open spec fn port_view(p: Port) -> PortView {
    PortView { direction: p.direction, register: p.register, pins: p.pins }
}

/// What a CIA holds.
pub struct CiaView {
    pub reg_interrupt_control: u8,
    pub reg_interrupt_status: u8,
    pub port_a: PortView,
    pub port_b: PortView,
    pub timer_a: TimerView,
    pub timer_b: TimerView,
}

/// A 6526 Complex Interface Adapter chip.
#[derive(Debug)]
pub struct Cia {
    reg_interrupt_control: u8,
    reg_interrupt_status: u8,
    port_a: Port,
    port_b: Port,
    timer_a: Timer,
    timer_b: Timer,
}

impl View for Cia {
    type V = CiaView;

    closed spec fn view(&self) -> CiaView {
        CiaView {
            reg_interrupt_control: self.reg_interrupt_control,
            reg_interrupt_status: self.reg_interrupt_status,
            port_a: port_view(self.port_a),
            port_b: port_view(self.port_b),
            timer_a: self.timer_a@,
            timer_b: self.timer_b@,
        }
    }
}

pub open spec fn port_of(c: CiaView, port_name: PortName) -> PortView {
    match port_name {
        PortName::A => c.port_a,
        PortName::B => c.port_b,
    }
}

pub open spec fn with_port(c: CiaView, port_name: PortName, p: PortView) -> CiaView {
    match port_name {
        PortName::A => CiaView { port_a: p, ..c },
        PortName::B => CiaView { port_b: p, ..c },
    }
}

pub open spec fn read_port_spec(c: CiaView, port_name: PortName) -> u8 {
    let p = port_of(c, port_name);
    port_value(p.direction, p.register, p.pins)
}

/// An interrupt condition: its bit is set in the status register, together
/// with the TRIGGERED bit if the condition is enabled to interrupt.
pub open spec fn set_interrupt_flag_spec(c: CiaView, icr_flag: u8) -> CiaView {
    CiaView {
        reg_interrupt_status: c.reg_interrupt_status | (if c.reg_interrupt_control & icr_flag
            != 0 {
            icr_flag | flags::ICR_TRIGGERED
        } else {
            icr_flag
        }),
        ..c
    }
}

/// A tick runs both timers; an underflow is an interrupt condition. The CIA
/// requests an interrupt while the TRIGGERED bit is set.
pub open spec fn cia_tick_spec(c: CiaView) -> (CiaView, bool) {
    let (ta, underflow_a) = timer_tick_spec(c.timer_a);
    let c1 = CiaView { timer_a: ta, ..c };
    let c2 = if underflow_a {
        set_interrupt_flag_spec(c1, flags::ICR_TIMER_A)
    } else {
        c1
    };
    let (tb, underflow_b) = timer_tick_spec(c2.timer_b);
    let c3 = CiaView { timer_b: tb, ..c2 };
    let c4 = if underflow_b {
        set_interrupt_flag_spec(c3, flags::ICR_TIMER_B)
    } else {
        c3
    };
    (c4, c4.reg_interrupt_status & flags::ICR_TRIGGERED != 0)
}

/// What reading a register gives, without side effects.
pub open spec fn cia_inspect_spec(c: CiaView, address: u16) -> ReadResult {
    let r = address & 0x0F;
    if r == registers::PRA {
        Ok(read_port_spec(c, PortName::A))
    } else if r == registers::PRB {
        Ok(read_port_spec(c, PortName::B))
    } else if r == registers::DDRA {
        Ok(c.port_a.direction)
    } else if r == registers::DDRB {
        Ok(c.port_b.direction)
    } else if r == registers::TA_LO {
        Ok((c.timer_a.counter % 256) as u8)
    } else if r == registers::TA_HI {
        Ok((c.timer_a.counter / 256) as u8)
    } else if r == registers::TB_LO {
        Ok((c.timer_b.counter % 256) as u8)
    } else if r == registers::TB_HI {
        Ok((c.timer_b.counter / 256) as u8)
    } else if r == registers::ICR {
        Ok(c.reg_interrupt_status)
    } else if r == registers::CRA {
        Ok(c.timer_a.control & !timer::flags::LOAD)
    } else if r == registers::CRB {
        Ok(c.timer_b.control & !timer::flags::LOAD)
    } else {
        Err(ReadError { address })
    }
}

/// The interrupt sources that may be enabled: the timers and the FLAG pin.
pub open spec fn supported_interrupt_mask(value: u8) -> bool {
    value & !(flags::ICR_TIMER_A | flags::ICR_TIMER_B | flags::ICR_FLAG_SIGNAL
        | flags::ICR_SOURCE_BIT) == 0
}

/// A write to a register: the result and the CIA afterwards. Writing the
/// interrupt control register with the source bit set enables the given
/// sources, without it disables them.
pub open spec fn cia_write_spec(c: CiaView, address: u16, value: u8) -> (CiaView, WriteResult) {
    let r = address & 0x0F;
    if r == registers::PRA {
        (CiaView { port_a: PortView { register: value, ..c.port_a }, ..c }, Ok(()))
    } else if r == registers::PRB {
        (CiaView { port_b: PortView { register: value, ..c.port_b }, ..c }, Ok(()))
    } else if r == registers::DDRA {
        (CiaView { port_a: PortView { direction: value, ..c.port_a }, ..c }, Ok(()))
    } else if r == registers::DDRB {
        (CiaView { port_b: PortView { direction: value, ..c.port_b }, ..c }, Ok(()))
    } else if r == registers::TA_LO {
        (CiaView { timer_a: TimerView { latch: (256 * (c.timer_a.latch / 256) + value) as u16, ..c.timer_a }, ..c }, Ok(()))
    } else if r == registers::TA_HI {
        (CiaView { timer_a: TimerView { latch: (c.timer_a.latch % 256 + 256 * value) as u16, ..c.timer_a }, ..c }, Ok(()))
    } else if r == registers::TB_LO {
        (CiaView { timer_b: TimerView { latch: (256 * (c.timer_b.latch / 256) + value) as u16, ..c.timer_b }, ..c }, Ok(()))
    } else if r == registers::TB_HI {
        (CiaView { timer_b: TimerView { latch: (c.timer_b.latch % 256 + 256 * value) as u16, ..c.timer_b }, ..c }, Ok(()))
    } else if r == registers::ICR {
        if value & flags::ICR_SOURCE_BIT != 0 {
            if !supported_interrupt_mask(value) {
                (c, Err(WriteError { address, value }))
            } else {
                (CiaView { reg_interrupt_control: c.reg_interrupt_control | value, ..c }, Ok(()))
            }
        } else {
            (CiaView { reg_interrupt_control: c.reg_interrupt_control & !value, ..c }, Ok(()))
        }
    } else if r == registers::CRA {
        if supported_control(value) {
            (CiaView { timer_a: set_control_spec(c.timer_a, value), ..c }, Ok(()))
        } else {
            (c, Err(WriteError { address, value }))
        }
    } else if r == registers::CRB {
        if supported_control(value) {
            (CiaView { timer_b: set_control_spec(c.timer_b, value), ..c }, Ok(()))
        } else {
            (c, Err(WriteError { address, value }))
        }
    } else {
        (c, Err(WriteError { address, value }))
    }
}

proof fn lemma_word_bytes(x: u16, v: u8)
    ensures
        (x & 0xFF) as u8 == (x % 256) as u8,
        ((x & 0xFF00) >> 8) as u8 == (x / 256) as u8,
        (x & 0xFF00) | (v as u16) == (256 * (x / 256) + v) as u16,
        (x & 0xFF) | ((v as u16) << 8) == (x % 256 + 256 * v) as u16,
{
    crate::bits::lemma_byte_replacement(x, v);
}

impl Cia {
    /// A CIA with all registers at 0.
    pub fn new() -> (r: Self)
        ensures
            r@ == (CiaView {
                reg_interrupt_control: 0,
                reg_interrupt_status: 0,
                port_a: PortView { direction: 0, register: 0, pins: 0 },
                port_b: PortView { direction: 0, register: 0, pins: 0 },
                timer_a: TimerView { control: 0, latch: 0, counter: 0 },
                timer_b: TimerView { control: 0, latch: 0, counter: 0 },
            }),
    {
        Cia {
            reg_interrupt_control: 0,
            reg_interrupt_status: 0,
            port_a: Port::default(),
            port_b: Port::default(),
            timer_a: Timer::default(),
            timer_b: Timer::default(),
        }
    }

    /// Performs a tick and returns `true` if an interrupt was triggered.
    pub fn tick(&mut self) -> (r: bool)
        ensures
            (final(self)@, r) == cia_tick_spec(old(self)@),
    {
        if self.timer_a.tick() {
            self.set_interrupt_flag(flags::ICR_TIMER_A);
        }
        if self.timer_b.tick() {
            self.set_interrupt_flag(flags::ICR_TIMER_B);
        }
        return self.reg_interrupt_status & flags::ICR_TRIGGERED != 0;
    }

    /// Writes a given value to the pins of a given port.
    pub fn write_port(&mut self, port_name: PortName, value: u8)
        ensures
            final(self)@ == with_port(
                old(self)@,
                port_name,
                PortView { pins: value, ..port_of(old(self)@, port_name) },
            ),
    {
        match port_name {
            PortName::A => self.port_a.pins = value,
            PortName::B => self.port_b.pins = value,
        }
    }

    /// Reads a value from the pins of a given port. The value takes into
    /// consideration the direction configuration for each particular bit.
    pub fn read_port(&self, port_name: PortName) -> (r: u8)
        ensures
            r == read_port_spec(self@, port_name),
    {
        match port_name {
            PortName::A => self.port_a.read(),
            PortName::B => self.port_b.read(),
        }
    }

    /// Indicates a falling edge happening on the /FLAG pin.
    pub fn set_flag(&mut self)
        ensures
            final(self)@ == set_interrupt_flag_spec(old(self)@, flags::ICR_FLAG_SIGNAL),
    {
        self.set_interrupt_flag(flags::ICR_FLAG_SIGNAL);
    }

    /// Indicates that an interrupt condition indicated by the `icr_flag`
    /// parameter has been triggered. If the flag is allowed to trigger an
    /// interrupt, it will be triggered by setting appropriate bit in the
    /// interrupt status register.
    fn set_interrupt_flag(&mut self, icr_flag: u8)
        ensures
            final(self)@ == set_interrupt_flag_spec(old(self)@, icr_flag),
    {
        let bits_to_set = if self.reg_interrupt_control & icr_flag != 0 {
            icr_flag | flags::ICR_TRIGGERED
        } else {
            icr_flag
        };
        self.reg_interrupt_status = self.reg_interrupt_status | bits_to_set;
    }

    /// Reads a register without side effects.
    pub fn inspect(&self, address: u16) -> (r: ReadResult)
        ensures
            r == cia_inspect_spec(self@, address),
    {
        proof {
            lemma_word_bytes(self.timer_a@.counter, 0);
            lemma_word_bytes(self.timer_b@.counter, 0);
        }
        match address & 0b1111 {
            registers::PRA => Ok(self.port_a.read()),
            registers::PRB => Ok(self.port_b.read()),
            registers::DDRA => Ok(self.port_a.direction),
            registers::DDRB => Ok(self.port_b.direction),
            registers::TA_LO => Ok((self.timer_a.counter() & 0xFF) as u8),
            registers::TA_HI => Ok(((self.timer_a.counter() & 0xFF00) >> 8) as u8),
            registers::TB_LO => Ok((self.timer_b.counter() & 0xFF) as u8),
            registers::TB_HI => Ok(((self.timer_b.counter() & 0xFF00) >> 8) as u8),
            registers::ICR => Ok(self.reg_interrupt_status),
            registers::CRA => Ok(self.timer_a.control()),
            registers::CRB => Ok(self.timer_b.control()),
            _ => Err(ReadError { address }),
        }
    }

    /// Reads a register. Reading the interrupt status register clears it.
    pub fn read(&mut self, address: u16) -> (r: ReadResult)
        ensures
            r == cia_inspect_spec(old(self)@, address),
            final(self)@ == if address & 0x0F == registers::ICR {
                CiaView { reg_interrupt_status: 0, ..old(self)@ }
            } else {
                old(self)@
            },
    {
        match address & 0b1111 {
            registers::ICR => {
                let status = self.reg_interrupt_status;
                self.reg_interrupt_status = 0;
                Ok(status)
            },
            _ => self.inspect(address),
        }
    }

    pub fn write(&mut self, address: u16, value: u8) -> (r: WriteResult)
        ensures
            (final(self)@, r) == cia_write_spec(old(self)@, address, value),
    {
        proof {
            lemma_word_bytes(self.timer_a@.latch, value);
            lemma_word_bytes(self.timer_b@.latch, value);
        }
        match address & 0b1111 {
            registers::PRA => self.port_a.register = value,
            registers::PRB => self.port_b.register = value,
            registers::DDRA => {
                self.port_a.direction = value;
            },
            registers::DDRB => {
                self.port_b.direction = value;
            },
            registers::TA_LO => self.timer_a.set_latch(self.timer_a.latch() & 0xFF00 | value as u16),
            registers::TA_HI => self.timer_a.set_latch(
                self.timer_a.latch() & 0xFF | (value as u16) << 8,
            ),
            registers::TB_LO => self.timer_b.set_latch(self.timer_b.latch() & 0xFF00 | value as u16),
            registers::TB_HI => self.timer_b.set_latch(
                self.timer_b.latch() & 0xFF | (value as u16) << 8,
            ),
            registers::ICR => {
                if value & flags::ICR_SOURCE_BIT != 0 {
                    // Set mask bits. For now, only allow turning on timer and
                    // FLAG IRQs.
                    if value & !(flags::ICR_TIMER_A | flags::ICR_TIMER_B | flags::ICR_FLAG_SIGNAL
                        | flags::ICR_SOURCE_BIT) != 0 {
                        return Err(WriteError { address, value });
                    }
                    self.reg_interrupt_control = self.reg_interrupt_control | value;
                } else {
                    self.reg_interrupt_control = self.reg_interrupt_control & !value;
                }
            },
            registers::CRA => {
                if self.timer_a.set_control(value).is_err() {
                    return Err(WriteError { address, value });
                }
            },
            registers::CRB => {
                if self.timer_b.set_control(value).is_err() {
                    return Err(WriteError { address, value });
                }
            },
            _ => return Err(WriteError { address, value }),
        };
        Ok(())
    }
}

proof fn lemma_triggered_stays(c: CiaView, flag: u8)
    requires
        c.reg_interrupt_status & flags::ICR_TRIGGERED != 0,
    ensures
        set_interrupt_flag_spec(c, flag).reg_interrupt_status & flags::ICR_TRIGGERED != 0,
{
    let s = c.reg_interrupt_status;
    let b = if c.reg_interrupt_control & flag != 0 {
        flag | flags::ICR_TRIGGERED
    } else {
        flag
    };
    assert(s & 0x80 != 0 ==> (s | b) & 0x80 != 0) by (bit_vector);
}

/// Interrupt acknowledgement law: a triggered interrupt keeps being reported
/// by ticks until the status register is read, and reading it stops the
/// reports (when no timer underflows meanwhile).
pub proof fn lemma_interrupt_until_acknowledged(c: CiaView)
    requires
        c.reg_interrupt_status & flags::ICR_TRIGGERED != 0,
    ensures
        cia_tick_spec(c).1,
        ({
            let acknowledged = CiaView { reg_interrupt_status: 0, ..c };
            !timer_tick_spec(c.timer_a).1 && !timer_tick_spec(c.timer_b).1 ==> !cia_tick_spec(
                acknowledged,
            ).1
        }),
{
    lemma_triggered_stays(c, flags::ICR_TIMER_A);
    let c1 = CiaView { timer_a: timer_tick_spec(c.timer_a).0, ..c };
    let c2 = if timer_tick_spec(c.timer_a).1 {
        set_interrupt_flag_spec(c1, flags::ICR_TIMER_A)
    } else {
        c1
    };
    lemma_triggered_stays(CiaView { timer_b: timer_tick_spec(c2.timer_b).0, ..c2 }, flags::ICR_TIMER_B);
    assert((0u8 & 0x80u8) == 0) by (bit_vector);
}

} // verus!
