pub mod registers;

use crate::memory::{Memory, ReadError, ReadResult, WriteError, WriteResult};
use crate::random::{random_below, random_u32, random_u8};
use vstd::prelude::*;

verus! {

/// A console switch of the Atari 2600.
#[derive(Debug, Copy, Clone, PartialEq, Eq, Structural)]
pub enum Switch {
    TvType,
    LeftDifficulty,
    RightDifficulty,
    GameSelect,
    GameReset,
}

/// The bit of port B that a switch drives.
pub open spec fn switch_mask(switch: Switch) -> u8 {
    match switch {
        Switch::RightDifficulty => 0x80,
        Switch::LeftDifficulty => 0x40,
        Switch::TvType => 0x08,
        Switch::GameSelect => 0x02,
        Switch::GameReset => 0x01,
    }
}

impl Switch {
    pub fn mask(&self) -> (r: u8)
        ensures
            r == switch_mask(*self),
    {
        proof {
            crate::atari::lemma_line_constants();
        }
        match self {
            Self::RightDifficulty => 1 << 7,
            Self::LeftDifficulty => 1 << 6,
            Self::TvType => 1 << 3,
            Self::GameSelect => 1 << 1,
            Self::GameReset => 1,
        }
    }
}

#[derive(Debug, PartialEq, Eq, Clone, Copy, Structural)]
pub enum SwitchPosition {
    Up,
    Down,
}

/// The interval lengths, in cycles, that the timer can count with.
pub open spec fn valid_interval(n: u32) -> bool {
    n == 1 || n == 8 || n == 64 || n == 1024
}

/// What a RIOT holds: the timer, its divider and interval, and the two port
/// registers.
pub struct RiotView {
    pub timer: u8,
    pub divider: u32,
    pub interval_length: u32,
    pub reg_swcha: u8,
    pub reg_swchb: u8,
}

/// A MOS Technology 6532 RIOT chip. Note that originally, this chip also
/// included 128 bytes of RAM, but for the sake of single-responsibility
/// principle, it's been split out to a separate struct.
#[derive(Debug)]
pub struct Riot {
    timer: u8,
    divider: u32,
    interval_length: u32,
    reg_swcha: u8,
    reg_swchb: u8,
}

pub enum Port {
    PA,
    PB,
}

impl View for Riot {
    type V = RiotView;

    closed spec fn view(&self) -> RiotView {
        RiotView {
            timer: self.timer,
            divider: self.divider,
            interval_length: self.interval_length,
            reg_swcha: self.reg_swcha,
            reg_swchb: self.reg_swchb,
        }
    }
}

/// One cycle of the timer: the timer is decremented whenever the divider is
/// at 0; the divider counts modulo the interval length.
pub open spec fn riot_tick_spec(r: RiotView) -> RiotView {
    RiotView {
        timer: if r.divider == 0 {
            ((r.timer + 255) % 256) as u8
        } else {
            r.timer
        },
        divider: (((r.divider + 1) % 0x1_0000_0000) % (r.interval_length as int)) as u32,
        ..r
    }
}

/// A timer restarted at `value`, counting down every `interval_length`
/// cycles.
pub open spec fn reset_timer_spec(r: RiotView, value: u8, interval_length: u32) -> RiotView {
    RiotView { timer: value, interval_length, divider: 0, ..r }
}

impl Riot {
    pub open spec fn wf(&self) -> bool {
        valid_interval(self@.interval_length)
    }

    /// A RIOT with the timer, its divider and its interval length at random
    /// and all switches up.
    pub fn new() -> (r: Riot)
        ensures
            r.wf(),
            r@.reg_swcha == 0xFF,
            r@.reg_swchb == 0xFF,
    {
        let intervals: [u32; 4] = [1, 8, 64, 1024];
        Riot {
            timer: random_u8(),
            divider: random_u32(),
            interval_length: intervals[random_below(4)],
            reg_swcha: 0xFF,
            reg_swchb: 0xFF,
        }
    }

    pub fn tick(&mut self)
        requires
            old(self).wf(),
        ensures
            final(self).wf(),
            final(self)@ == riot_tick_spec(old(self)@),
    {
        if self.divider == 0 {
            self.timer = self.timer.wrapping_sub(1);
        }
        self.divider = self.divider.wrapping_add(1) % self.interval_length;
    }

    pub fn reset_timer(&mut self, timer_value: u8, interval_length: u32)
        requires
            valid_interval(interval_length),
        ensures
            final(self).wf(),
            final(self)@ == reset_timer_spec(old(self)@, timer_value, interval_length),
    {
        self.timer = timer_value;
        self.interval_length = interval_length;
        self.divider = 0;
    }

    pub fn switch_position(&self, switch: Switch) -> (r: SwitchPosition)
        ensures
            r == if self@.reg_swchb & switch_mask(switch) != 0 {
                SwitchPosition::Up
            } else {
                SwitchPosition::Down
            },
    {
        if self.reg_swchb & switch.mask() != 0 {
            SwitchPosition::Up
        } else {
            SwitchPosition::Down
        }
    }

    pub fn flip_switch(&mut self, switch: Switch, position: SwitchPosition)
        requires
            old(self).wf(),
        ensures
            final(self).wf(),
            final(self)@ == (RiotView {
                reg_swchb: if position == SwitchPosition::Up {
                    old(self)@.reg_swchb | switch_mask(switch)
                } else {
                    old(self)@.reg_swchb & !switch_mask(switch)
                },
                ..old(self)@
            }),
    {
        if position == SwitchPosition::Up {
            self.reg_swchb = self.reg_swchb | switch.mask();
        } else {
            self.reg_swchb = self.reg_swchb & !switch.mask();
        }
    }

    pub fn set_port(&mut self, port: Port, value: u8)
        requires
            old(self).wf(),
        ensures
            final(self).wf(),
            final(self)@ == match port {
                Port::PA => RiotView { reg_swcha: value, ..old(self)@ },
                Port::PB => RiotView { reg_swchb: value, ..old(self)@ },
            },
    {
        match port {
            Port::PA => self.reg_swcha = value,
            Port::PB => self.reg_swchb = value,
        };
    }
}

/// Switch law: after a switch is flipped, it reads back in the position it
/// was flipped to, and every other switch keeps its position.
pub proof fn lemma_flip_switch(swchb: u8, switch: Switch, other: Switch, position: SwitchPosition)
    ensures
        ({
            let next = if position == SwitchPosition::Up {
                swchb | switch_mask(switch)
            } else {
                swchb & !switch_mask(switch)
            };
            &&& (next & switch_mask(switch) != 0) == (position == SwitchPosition::Up)
            &&& other != switch ==> (next & switch_mask(other) != 0) == (swchb & switch_mask(
                other,
            ) != 0)
        }),
{
    let m = switch_mask(switch);
    let o = switch_mask(other);
    assert(m != 0);
    assert(forall|x: u8, y: u8|
        (x == 0x80 || x == 0x40 || x == 0x08 || x == 0x02 || x == 0x01) && (y == 0x80 || y == 0x40
            || y == 0x08 || y == 0x02 || y == 0x01) && x != y ==> #[trigger] (x & y) == 0)
        by (bit_vector);
    assert((swchb | m) & m != 0 && (swchb & !m) & m == 0 && (o & m == 0 ==> ((swchb | m) & o != 0)
        == (swchb & o != 0) && ((swchb & !m) & o != 0) == (swchb & o != 0))) by (bit_vector)
        requires
            m != 0,
    ;
    if other != switch {
        assert(o & m == 0);
    }
}

impl Memory for Riot {
    open spec fn read_spec(&self, address: u16) -> ReadResult {
        if address == registers::SWCHA {
            Ok(self@.reg_swcha)
        } else if address == registers::SWCHB {
            Ok(self@.reg_swchb)
        } else if address == registers::INTIM {
            Ok(self@.timer)
        } else {
            Err(ReadError { address })
        }
    }

    open spec fn write_spec(&self, address: u16, value: u8) -> WriteResult {
        if registers::TIM1T <= address <= registers::T1024T {
            Ok(())
        } else {
            Err(WriteError { address, value })
        }
    }

    open spec fn after_write(&self, address: u16, value: u8, next: Self) -> bool {
        next@ == if address == registers::TIM1T {
            reset_timer_spec(self@, value, 1)
        } else if address == registers::TIM8T {
            reset_timer_spec(self@, value, 8)
        } else if address == registers::TIM64T {
            reset_timer_spec(self@, value, 64)
        } else if address == registers::T1024T {
            reset_timer_spec(self@, value, 1024)
        } else {
            self@
        }
    }

    fn read(&self, address: u16) -> (r: ReadResult) {
        match address {
            registers::SWCHA => Ok(self.reg_swcha),
            registers::SWCHB => Ok(self.reg_swchb),
            registers::INTIM => Ok(self.timer),
            _ => Err(ReadError { address }),
        }
    }

    fn write(&mut self, address: u16, value: u8) -> (r: WriteResult) {
        match address {
            registers::TIM1T => self.reset_timer(value, 1),
            registers::TIM8T => self.reset_timer(value, 8),
            registers::TIM64T => self.reset_timer(value, 64),
            registers::T1024T => self.reset_timer(value, 1024),
            _ => return Err(WriteError { address, value }),
        };
        Ok(())
    }
}

} // verus!
