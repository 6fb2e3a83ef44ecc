pub mod flags;

use vstd::prelude::*;

verus! {

/// A CIA timer
#[derive(Debug)]
pub struct Timer {
    control: u8,
    latch: u16,
    counter: u16,
}

/// What a timer holds.
pub struct TimerView {
    pub control: u8,
    pub latch: u16,
    pub counter: u16,
}

impl View for Timer {
    type V = TimerView;

    closed spec fn view(&self) -> TimerView {
        TimerView { control: self.control, latch: self.latch, counter: self.counter }
    }
}

impl Default for Timer {
    fn default() -> (r: Self)
        ensures
            r@ == (TimerView { control: 0, latch: 0, counter: 0 }),
    {
        Timer { control: 0, latch: 0, counter: 0 }
    }
}

/// The control bits that are implemented: START, LOAD and RUNMODE.
pub open spec fn supported_control(value: u8) -> bool {
    value & !(flags::START | flags::LOAD | flags::RUNMODE) == 0
}

/// Writing the control register: the value is stored, and LOAD copies the
/// latch to the counter.
pub open spec fn set_control_spec(t: TimerView, value: u8) -> TimerView {
    TimerView {
        control: value,
        counter: if value & flags::LOAD != 0 {
            t.latch
        } else {
            t.counter
        },
        ..t
    }
}

/// A tick of a started timer counts down; at 0 it underflows: the counter
/// reloads from the latch, and a one-shot timer stops.
pub open spec fn timer_tick_spec(t: TimerView) -> (TimerView, bool) {
    if t.control & flags::START != 0 {
        if t.counter > 0 {
            (TimerView { counter: (t.counter - 1) as u16, ..t }, false)
        } else {
            (
                TimerView {
                    counter: t.latch,
                    control: if t.control & flags::RUNMODE == flags::RUNMODE_ONE_SHOT {
                        t.control & !flags::START
                    } else {
                        t.control
                    },
                    ..t
                },
                true,
            )
        }
    } else {
        (t, false)
    }
}

impl Timer {
    /// Reads the control register.
    pub fn control(&self) -> (r: u8)
        ensures
            r == self@.control & !flags::LOAD,
    {
        // The LOAD flag is write-only.
        self.control & !flags::LOAD
    }

    /// Writes to the control register. Not all modes are available just yet:
    /// a value with other bits than START, LOAD and RUNMODE is refused.
    pub fn set_control(&mut self, value: u8) -> (r: Result<(), ()>)
        ensures
            supported_control(value) ==> r is Ok && final(self)@ == set_control_spec(
                old(self)@,
                value,
            ),
            !supported_control(value) ==> r is Err && final(self)@ == old(self)@,
    {
        if value & !(flags::START | flags::LOAD | flags::RUNMODE) != 0 {
            return Err(());
        }
        self.control = value;
        if self.control & flags::LOAD != 0 {
            self.counter = self.latch;
        }
        Ok(())
    }

    pub fn set_latch(&mut self, value: u16)
        ensures
            final(self)@ == (TimerView { latch: value, ..old(self)@ }),
    {
        self.latch = value;
    }

    pub fn latch(&self) -> (r: u16)
        ensures
            r == self@.latch,
    {
        self.latch
    }

    pub fn counter(&self) -> (r: u16)
        ensures
            r == self@.counter,
    {
        self.counter
    }

    /// Performs a tick, returns `true` on underflow
    pub fn tick(&mut self) -> (r: bool)
        ensures
            (final(self)@, r) == timer_tick_spec(old(self)@),
    {
        if self.control & flags::START != 0 {
            if self.counter > 0 {
                self.counter -= 1;
            } else {
                self.counter = self.latch;
                if self.control & flags::RUNMODE == flags::RUNMODE_ONE_SHOT {
                    self.control = self.control & !flags::START;
                }
                return true;
            }
        }
        return false;
    }
}

/// `n` ticks of a timer.
pub open spec fn timer_ticks_spec(t: TimerView, n: nat) -> TimerView
    decreases n,
{
    if n == 0 {
        t
    } else {
        timer_tick_spec(timer_ticks_spec(t, (n - 1) as nat)).0
    }
}

/// Underflow law: a started timer loaded with `latch` counts down to 0 in
/// `latch` ticks and underflows on the next one, reloading the latch.
pub proof fn lemma_timer_period(t: TimerView, k: nat)
    requires
        t.control & flags::START != 0,
        t.counter == t.latch,
        k <= t.latch,
    ensures
        timer_ticks_spec(t, k) == (TimerView { counter: (t.latch - k) as u16, ..t }),
        k == t.latch ==> timer_tick_spec(timer_ticks_spec(t, k)).1,
        k == t.latch ==> timer_tick_spec(timer_ticks_spec(t, k)).0.counter == t.latch,
    decreases k,
{
    if k > 0 {
        lemma_timer_period(t, (k - 1) as nat);
    }
}

} // verus!
