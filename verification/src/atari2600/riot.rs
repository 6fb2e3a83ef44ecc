pub mod flags;
pub mod registers;

use crate::memory::{ReadError, ReadResult, WriteError, WriteResult};
use crate::random::{random_below, random_u32, random_u8};
use vstd::prelude::*;

verus! {

#[derive(Debug, Clone, Copy, PartialEq, Eq, Structural)]
pub enum EdgeDetectionMode {
    Positive,
    Negative,
}

pub enum Port {
    PA,
    PB,
}

/// What a RIOT holds.
pub struct RiotView {
    pub timer_divider: u32,
    pub interval_length: u32,
    pub port_a: u8,
    pub port_b: u8,
    pub reg_swcha: u8,
    pub reg_swacnt: u8,
    pub reg_swchb: u8,
    pub reg_swbcnt: u8,
    pub reg_intim: u8,
    pub reg_timint: u8,
    pub pa7_edge_detection_mode: EdgeDetectionMode,
}

/// A MOS Technology 6532 RIOT chip. Note that originally, this chip also
/// included 128 bytes of RAM, but for the sake of single-responsibility
/// principle, it's been split out to a separate struct: `memory::AtariRam`.
#[derive(Debug)]
pub struct Riot {
    /// A divider that counts from 0 to `interval_length` and then wraps around.
    /// Each time it reaches 0, `reg_intim` is decreased.
    timer_divider: u32,
    /// A timer interval length, in CPU cycles.
    interval_length: u32,
    /// Direct input from port A. A low pin value on port A always overrides
    /// the port register.
    port_a: u8,
    /// Direct input from port B. Reading port B gives the output register for
    /// the pins that are set as outputs.
    port_b: u8,
    /// Port A output register.
    reg_swcha: u8,
    /// Port A pin direction (0=read, 1=write)
    reg_swacnt: u8,
    /// Port B output register.
    reg_swchb: u8,
    /// Port B pin direction (0=read, 1=write)
    reg_swbcnt: u8,
    /// Current timer value.
    reg_intim: u8,
    /// Timer interrupt flags.
    reg_timint: u8,
    pa7_edge_detection_mode: EdgeDetectionMode,
}

impl View for Riot {
    type V = RiotView;

    closed spec fn view(&self) -> RiotView {
        RiotView {
            timer_divider: self.timer_divider,
            interval_length: self.interval_length,
            port_a: self.port_a,
            port_b: self.port_b,
            reg_swcha: self.reg_swcha,
            reg_swacnt: self.reg_swacnt,
            reg_swchb: self.reg_swchb,
            reg_swbcnt: self.reg_swbcnt,
            reg_intim: self.reg_intim,
            reg_timint: self.reg_timint,
            pa7_edge_detection_mode: self.pa7_edge_detection_mode,
        }
    }
}

pub open spec fn valid_interval(n: u32) -> bool {
    n == 1 || n == 8 || n == 64 || n == 1024
}

/// One cycle of the timer. The timer counts down once per interval, and once
/// per cycle after it has underflowed (until INTIM is read); the underflow
/// raises the timer interrupt flag.
pub open spec fn riot_tick_spec(r: RiotView) -> RiotView {
    let counts = r.timer_divider == 0 || r.reg_timint & flags::TIMINT_TIMER != 0;
    let intim = if counts {
        ((r.reg_intim + 255) % 256) as u8
    } else {
        r.reg_intim
    };
    RiotView {
        reg_intim: intim,
        reg_timint: if counts && intim == 0xFF {
            r.reg_timint | flags::TIMINT_TIMER
        } else {
            r.reg_timint
        },
        timer_divider: (((r.timer_divider + 1) % 0x1_0000_0000) % (r.interval_length as int)) as u32,
        ..r
    }
}

pub open spec fn reset_timer_spec(r: RiotView, value: u8, interval_length: u32) -> RiotView {
    RiotView {
        reg_intim: value,
        interval_length,
        timer_divider: 0,
        reg_timint: r.reg_timint & !flags::TIMINT_TIMER,
        ..r
    }
}

/// The register that a read address reaches (the chip decodes only a few
/// address lines).
pub open spec fn canonical_read_spec(address: u16) -> u16 {
    if address & 0b0100 != 0 {
        address & 0b0101
    } else {
        address & 0b0011
    }
}

/// The register that a write address reaches.
pub open spec fn canonical_write_spec(address: u16) -> u16 {
    if address & 0b0001_0100 == 0b0001_0100 {
        address & 0b0001_0111
    } else if address & 0b0001_0100 == 0b0000_0100 {
        address & 0b0000_0101
    } else {
        address & 0b0011
    }
}

/// What reading a register gives, without side effects. Port A reads the
/// output register on output pins only where the pin is not pulled low; port
/// B reads the output register on output pins.
pub open spec fn inspect_spec(r: RiotView, address: u16) -> ReadResult {
    let reg = canonical_read_spec(address);
    if reg == registers::SWCHA {
        Ok((r.reg_swacnt & r.reg_swcha & r.port_a) | (!r.reg_swacnt & r.port_a))
    } else if reg == registers::SWACNT {
        Ok(r.reg_swacnt)
    } else if reg == registers::SWCHB {
        Ok((r.reg_swbcnt & r.reg_swchb) | (!r.reg_swbcnt & r.port_b))
    } else if reg == registers::SWBCNT {
        Ok(r.reg_swbcnt)
    } else if reg == registers::INTIM {
        Ok(r.reg_intim)
    } else if reg == registers::TIMINT {
        Ok(r.reg_timint)
    } else {
        Err(ReadError { address })
    }
}

/// The side effects of reading: reading INTIM clears the timer interrupt flag,
/// reading TIMINT clears the PA7 flag.
pub open spec fn after_read_spec(r: RiotView, address: u16) -> RiotView {
    let reg = canonical_read_spec(address);
    if reg == registers::INTIM {
        RiotView { reg_timint: r.reg_timint & !flags::TIMINT_TIMER, ..r }
    } else if reg == registers::TIMINT {
        RiotView { reg_timint: r.reg_timint & !flags::TIMINT_PA7, ..r }
    } else {
        r
    }
}

pub open spec fn write_result_spec(address: u16, value: u8) -> WriteResult {
    let reg = canonical_write_spec(address);
    if reg == registers::SWCHA || reg == registers::SWACNT || reg == registers::SWCHB || reg
        == registers::SWBCNT || reg == registers::TIM1T || reg == registers::TIM8T || reg
        == registers::TIM64T || reg == registers::T1024T || reg == registers::PA7_NEG || reg
        == registers::PA7_POS {
        Ok(())
    } else {
        Err(WriteError { address, value })
    }
}

pub open spec fn after_write_spec(r: RiotView, address: u16, value: u8) -> RiotView {
    let reg = canonical_write_spec(address);
    if reg == registers::SWCHA {
        RiotView { reg_swcha: value, ..r }
    } else if reg == registers::SWACNT {
        RiotView { reg_swacnt: value, ..r }
    } else if reg == registers::SWCHB {
        RiotView { reg_swchb: value, ..r }
    } else if reg == registers::SWBCNT {
        RiotView { reg_swbcnt: value, ..r }
    } else if reg == registers::TIM1T {
        reset_timer_spec(r, value, 1)
    } else if reg == registers::TIM8T {
        reset_timer_spec(r, value, 8)
    } else if reg == registers::TIM64T {
        reset_timer_spec(r, value, 64)
    } else if reg == registers::T1024T {
        reset_timer_spec(r, value, 1024)
    } else if reg == registers::PA7_NEG {
        RiotView { pa7_edge_detection_mode: EdgeDetectionMode::Negative, ..r }
    } else if reg == registers::PA7_POS {
        RiotView { pa7_edge_detection_mode: EdgeDetectionMode::Positive, ..r }
    } else {
        r
    }
}

/// Setting the pins of a port. On port A, an edge of PA7 in the detected
/// direction raises the PA7 interrupt flag.
pub open spec fn set_port_spec(r: RiotView, port: Port, value: u8) -> RiotView {
    match port {
        Port::PA => {
            let was_high = r.port_a & 0x80 != 0;
            let is_high = value & 0x80 != 0;
            let edge = match r.pa7_edge_detection_mode {
                EdgeDetectionMode::Negative => was_high && !is_high,
                EdgeDetectionMode::Positive => !was_high && is_high,
            };
            RiotView {
                port_a: value,
                reg_timint: if edge {
                    r.reg_timint | flags::TIMINT_PA7
                } else {
                    r.reg_timint
                },
                ..r
            }
        },
        Port::PB => RiotView { port_b: value, ..r },
    }
}

pub fn canonical_read_address(address: u16) -> (r: u16)
    ensures
        r == canonical_read_spec(address),
{
    if address & 0b0100 != 0 {
        address & 0b0101
    } else {
        address & 0b0011
    }
}

pub fn canonical_write_address(address: u16) -> (r: u16)
    ensures
        r == canonical_write_spec(address),
{
    if address & 0b0001_0100 == 0b0001_0100 {
        address & 0b0001_0111
    } else if address & 0b0001_0100 == 0b0000_0100 {
        address & 0b0000_0101
    } else {
        address & 0b0011
    }
}

impl Riot {
    pub open spec fn wf(&self) -> bool {
        valid_interval(self@.interval_length)
    }

    /// A RIOT with random timer state, all output registers at 0xFF and all
    /// pins set as inputs.
    pub fn new() -> (r: Riot)
        ensures
            r.wf(),
            r@.port_a == 0,
            r@.port_b == 0,
            r@.reg_swcha == 0xFF,
            r@.reg_swacnt == 0,
            r@.reg_swchb == 0xFF,
            r@.reg_swbcnt == 0,
            r@.reg_timint == 0,
            r@.pa7_edge_detection_mode == EdgeDetectionMode::Negative,
    {
        let intervals: [u32; 4] = [1, 8, 64, 1024];
        Riot {
            timer_divider: random_u32(),
            interval_length: intervals[random_below(4)],
            port_a: 0,
            port_b: 0,
            reg_swcha: 0xFF,
            reg_swacnt: 0x00,
            reg_swchb: 0xFF,
            reg_swbcnt: 0x00,
            reg_intim: random_u8(),
            reg_timint: 0,
            pa7_edge_detection_mode: EdgeDetectionMode::Negative,
        }
    }

    pub fn tick(&mut self)
        requires
            old(self).wf(),
        ensures
            final(self).wf(),
            final(self)@ == riot_tick_spec(old(self)@),
    {
        if self.timer_divider == 0 || self.reg_timint & flags::TIMINT_TIMER != 0 {
            self.reg_intim = self.reg_intim.wrapping_sub(1);
            if self.reg_intim == 0xFF {
                self.reg_timint = self.reg_timint | flags::TIMINT_TIMER;
            }
        }
        self.timer_divider = self.timer_divider.wrapping_add(1) % self.interval_length;
    }

    pub fn reset_timer(&mut self, timer_value: u8, interval_length: u32)
        requires
            valid_interval(interval_length),
        ensures
            final(self).wf(),
            final(self)@ == reset_timer_spec(old(self)@, timer_value, interval_length),
    {
        self.reg_intim = timer_value;
        self.interval_length = interval_length;
        self.timer_divider = 0;
        self.reg_timint = self.reg_timint & !flags::TIMINT_TIMER;
    }

    pub fn set_port(&mut self, port: Port, value: u8)
        requires
            old(self).wf(),
        ensures
            final(self).wf(),
            final(self)@ == set_port_spec(old(self)@, port, value),
    {
        match port {
            Port::PA => {
                let pa7_change = (value & (1 << 7)) as i32 - (self.port_a & (1 << 7)) as i32;
                let old_a = self.port_a;
                assert((value & (1u8 << 7)) == (value & 0x80) && (old_a & (1u8 << 7)) == (old_a
                    & 0x80) && ((value & 0x80) == 0 || (value & 0x80) == 0x80) && ((old_a & 0x80)
                    == 0 || (old_a & 0x80) == 0x80)) by (bit_vector);
                match self.pa7_edge_detection_mode {
                    EdgeDetectionMode::Negative => {
                        if pa7_change < 0 {
                            self.reg_timint = self.reg_timint | flags::TIMINT_PA7;
                        }
                    },
                    EdgeDetectionMode::Positive => {
                        if pa7_change > 0 {
                            self.reg_timint = self.reg_timint | flags::TIMINT_PA7;
                        }
                    },
                }
                self.port_a = value;
            },
            Port::PB => self.port_b = value,
        };
    }

    /// Reads a register without side effects.
    pub fn inspect(&self, address: u16) -> (r: ReadResult)
        ensures
            r == inspect_spec(self@, address),
    {
        match canonical_read_address(address) {
            registers::SWCHA => Ok(
                (self.reg_swacnt & self.reg_swcha & self.port_a) | (!self.reg_swacnt & self.port_a),
            ),
            registers::SWACNT => Ok(self.reg_swacnt),
            registers::SWCHB => Ok(
                (self.reg_swbcnt & self.reg_swchb) | (!self.reg_swbcnt & self.port_b),
            ),
            registers::SWBCNT => Ok(self.reg_swbcnt),
            registers::INTIM => Ok(self.reg_intim),
            registers::TIMINT => Ok(self.reg_timint),
            _ => Err(ReadError { address }),
        }
    }

    /// Reads a register, with the side effects that reading has.
    pub fn read(&mut self, address: u16) -> (r: ReadResult)
        requires
            old(self).wf(),
        ensures
            final(self).wf(),
            r == inspect_spec(old(self)@, address),
            final(self)@ == after_read_spec(old(self)@, address),
    {
        match canonical_read_address(address) {
            registers::INTIM => {
                self.reg_timint = self.reg_timint & !flags::TIMINT_TIMER;
                Ok(self.reg_intim)
            },
            registers::TIMINT => {
                let timint = self.reg_timint;
                self.reg_timint = self.reg_timint & !flags::TIMINT_PA7;
                Ok(timint)
            },
            _ => self.inspect(address),
        }
    }

    pub fn write(&mut self, address: u16, value: u8) -> (r: WriteResult)
        requires
            old(self).wf(),
        ensures
            final(self).wf(),
            r == write_result_spec(address, value),
            final(self)@ == after_write_spec(old(self)@, address, value),
    {
        match canonical_write_address(address) {
            registers::SWCHA => self.reg_swcha = value,
            registers::SWACNT => self.reg_swacnt = value,
            registers::SWCHB => self.reg_swchb = value,
            registers::SWBCNT => self.reg_swbcnt = value,
            registers::TIM1T => self.reset_timer(value, 1),
            registers::TIM8T => self.reset_timer(value, 8),
            registers::TIM64T => self.reset_timer(value, 64),
            registers::T1024T => self.reset_timer(value, 1024),
            // Unofficial
            registers::PA7_NEG => self.pa7_edge_detection_mode = EdgeDetectionMode::Negative,
            registers::PA7_POS => self.pa7_edge_detection_mode = EdgeDetectionMode::Positive,
            _ => return Err(WriteError { address, value }),
        };
        Ok(())
    }
}

/// Timer law: after the timer is started at a value `v > 0` with an interval
/// of `n` cycles, each `n` cycles take one from it: after `k * n` cycles
/// (`k <= v`) it holds `v - k`, and no underflow has been flagged.
pub proof fn lemma_timer_counts_down(r: RiotView, v: u8, n: u32, k: nat)
    requires
        valid_interval(n),
        k <= v,
        r.reg_timint & flags::TIMINT_TIMER == 0,
    ensures
        ({
            let t = ticks_spec(reset_timer_spec(r, v, n), (k * n) as nat);
            &&& t.reg_intim == v - k
            &&& t.timer_divider == 0
            &&& t.interval_length == n
            &&& t.reg_timint & flags::TIMINT_TIMER == 0
        }),
    decreases k,
{
    let r0 = reset_timer_spec(r, v, n);
    let t0 = r.reg_timint;
    assert((t0 & !flags::TIMINT_TIMER) & flags::TIMINT_TIMER == 0) by (bit_vector);
    assert(r0.reg_timint & flags::TIMINT_TIMER == 0);
    if k > 0 {
        let k1 = (k - 1) as nat;
        lemma_timer_counts_down(r, v, n, k1);
        let a = (k1 * n) as nat;
        let mid = ticks_spec(r0, a);
        lemma_one_interval(mid, n);
        lemma_ticks_add(r0, a, n as nat);
        assert(k1 * n + n == k * n) by (nonlinear_arith)
            requires
                k1 == k - 1,
        ;
        assert(a + n == (k * n) as nat);
        let t = ticks_spec(mid, n as nat);
        assert(t.reg_intim == v - k);
        assert(ticks_spec(r0, (k * n) as nat) == t);
    } else {
        assert(k * n == 0) by (nonlinear_arith)
            requires
                k == 0,
        ;
        assert(ticks_spec(r0, 0) == r0);
    }
}

/// `n` cycles of the timer.
pub open spec fn ticks_spec(r: RiotView, n: nat) -> RiotView
    decreases n,
{
    if n == 0 {
        r
    } else {
        riot_tick_spec(ticks_spec(r, (n - 1) as nat))
    }
}

proof fn lemma_ticks_add(r: RiotView, a: nat, b: nat)
    ensures
        ticks_spec(r, a + b) == ticks_spec(ticks_spec(r, a), b),
    decreases b,
{
    if b > 0 {
        lemma_ticks_add(r, a, (b - 1) as nat);
    }
}

/// One interval of the timer, from a divider at 0 and a timer above 0 with no
/// underflow flagged: the timer drops by one and the divider is back at 0.
proof fn lemma_one_interval(r: RiotView, n: u32)
    requires
        valid_interval(n),
        r.interval_length == n,
        r.timer_divider == 0,
        r.reg_intim > 0,
        r.reg_timint & flags::TIMINT_TIMER == 0,
    ensures
        ({
            let t = ticks_spec(r, n as nat);
            &&& t.reg_intim == r.reg_intim - 1
            &&& t.timer_divider == 0
            &&& t.interval_length == n
            &&& t.reg_timint == r.reg_timint
        }),
{
    lemma_interval_steps(r, n, n as nat);
}

proof fn lemma_interval_steps(r: RiotView, n: u32, j: nat)
    requires
        valid_interval(n),
        r.interval_length == n,
        r.timer_divider == 0,
        r.reg_intim > 0,
        r.reg_timint & flags::TIMINT_TIMER == 0,
        1 <= j <= n,
    ensures
        ({
            let t = ticks_spec(r, j);
            &&& t.reg_intim == r.reg_intim - 1
            &&& t.timer_divider == (j as int) % (n as int)
            &&& t.interval_length == n
            &&& t.reg_timint == r.reg_timint
        }),
    decreases j,
{
    if j > 1 {
        lemma_interval_steps(r, n, (j - 1) as nat);
        let prev = ticks_spec(r, (j - 1) as nat);
        vstd::arithmetic::div_mod::lemma_small_mod((j - 1) as nat, n as nat);
        assert(prev.timer_divider == j - 1);
        assert(prev.reg_timint & flags::TIMINT_TIMER == 0);
        assert(ticks_spec(r, j) == riot_tick_spec(prev));
        assert((prev.timer_divider + 1) % 0x1_0000_0000 == j);
    } else {
        assert(ticks_spec(r, 1) == riot_tick_spec(r));
        assert(ticks_spec(r, 1).reg_intim == r.reg_intim - 1);
    }
}

} // verus!
