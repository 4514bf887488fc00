//! The clock adapter: configuration, reset offset and the widening state.

use vstd::prelude::*;

use crate::extend::{extend_reading, extended, lemma_extended_step, wrap_period};
use crate::reload::{reload_for, reload_of, ticks_since, RELOAD_MAX};

verus! {

/// Why the clock could not be brought up.
#[derive(Debug, Clone, Copy, PartialEq, Eq, Structural)]
pub enum InitError {
    /// The measured system clock differs from the declared `TIMER_HZ`.
    FrequencyMismatch,
    /// The hardware has no cycle counter.
    NoCycleCounter,
}

/// What a clock holds, as plain values.
pub struct ClockModel {
    /// Wide configuration: the 32-bit counter is widened to 64 bits.
    pub wide: bool,
    /// Reading subtracted from raw time since the last reset.
    pub cycle_offset: u64,
    /// Wide configuration: the most recent 64-bit reading.
    pub last: u64,
}

/// Tickless monotonic clock over a cycle counter and a down-counter that share
/// one clock of `TIMER_HZ` ticks per second.
///
/// In the narrow configuration time is the 32-bit counter itself and wraps
/// with it. In the wide configuration each reading is widened to 64 bits by
/// noticing when the counter wrapped since the previous reading, so the clock
/// must be read at least once per wrap period of the counter.
pub struct DwtSystick<const TIMER_HZ: u32> {
    wide: bool,
    cycle_offset: u64,
    last: u64,
}

/// The raw time shown by a clock in state `m` when the counter reads `cyccnt`.
pub open spec fn raw_time(m: ClockModel, cyccnt: u32) -> u64 {
    if m.wide {
        extended(m.last, cyccnt)
    } else {
        cyccnt as u64
    }
}

/// The state after reading the counter value `cyccnt`.
pub open spec fn after_read(m: ClockModel, cyccnt: u32) -> ClockModel {
    if m.wide {
        ClockModel { last: extended(m.last, cyccnt), ..m }
    } else {
        m
    }
}

/// `later - earlier` in the clock's width, wrapping.
pub open spec fn elapsed(wide: bool, later: u64, earlier: u64) -> u64 {
    if wide {
        ((later as int - earlier as int) % 0x1_0000_0000_0000_0000) as u64
    } else {
        ((later as int - earlier as int) % 0x1_0000_0000) as u64
    }
}

impl<const TIMER_HZ: u32> View for DwtSystick<TIMER_HZ> {
    type V = ClockModel;

    closed spec fn view(&self) -> ClockModel {
        ClockModel { wide: self.wide, cycle_offset: self.cycle_offset, last: self.last }
    }
}

impl<const TIMER_HZ: u32> DwtSystick<TIMER_HZ> {
    /// Instants of the narrow configuration are 32-bit.
    pub open spec fn wf(&self) -> bool {
        !self@.wide ==> self@.cycle_offset <= u32::MAX
    }

    /// Checks the configuration and gives a clock with zero offset and zero
    /// widening state. `sysclk` is the measured system clock frequency and
    /// `has_cycle_counter` whether the hardware counts cycles; the caller
    /// resets the cycle counter and starts both counters once this succeeds.
    pub fn new(sysclk: u32, has_cycle_counter: bool, wide: bool) -> (r: Result<Self, InitError>)
        ensures
            sysclk != TIMER_HZ ==> r == Err::<Self, InitError>(InitError::FrequencyMismatch),
            sysclk == TIMER_HZ && !has_cycle_counter ==> r == Err::<Self, InitError>(
                InitError::NoCycleCounter,
            ),
            sysclk == TIMER_HZ && has_cycle_counter ==> r is Ok,
            r matches Ok(c) ==> c.wf() && c@ == (ClockModel { wide, cycle_offset: 0, last: 0 }),
    {
        if sysclk != TIMER_HZ {
            return Err(InitError::FrequencyMismatch);
        }
        if !has_cycle_counter {
            return Err(InitError::NoCycleCounter);
        }
        Ok(DwtSystick { wide, cycle_offset: 0, last: 0 })
    }

    /// Raw time for the counter reading `cyccnt`: the reading itself in the
    /// narrow configuration; in the wide configuration the reading widened
    /// against the previous one, which it then replaces.
    pub fn unadjusted_now(&mut self, cyccnt: u32) -> (r: u64)
        requires
            old(self).wf(),
        ensures
            final(self).wf(),
            r == raw_time(old(self)@, cyccnt),
            final(self)@ == after_read(old(self)@, cyccnt),
            !old(self)@.wide ==> r <= u32::MAX,
    {
        if self.wide {
            self.last = extend_reading(self.last, cyccnt);
            self.last
        } else {
            cyccnt as u64
        }
    }

    /// Time since the last reset for the counter reading `cyccnt`: raw time
    /// less the offset, wrapping in the clock's width.
    pub fn adjusted_now(&mut self, cyccnt: u32) -> (r: u64)
        requires
            old(self).wf(),
        ensures
            final(self).wf(),
            r == elapsed(old(self)@.wide, raw_time(old(self)@, cyccnt), old(self)@.cycle_offset),
            raw_time(old(self)@, cyccnt) >= old(self)@.cycle_offset ==> r == raw_time(
                old(self)@,
                cyccnt,
            ) - old(self)@.cycle_offset,
            final(self)@ == after_read(old(self)@, cyccnt),
    {
        let raw = self.unadjusted_now(cyccnt);
        if self.wide {
            raw.wrapping_sub(self.cycle_offset)
        } else {
            (raw as u32).wrapping_sub(self.cycle_offset as u32) as u64
        }
    }

    /// The clock's time, as the scheduler reads it: raw time.
    pub fn now(&mut self, cyccnt: u32) -> (r: u64)
        requires
            old(self).wf(),
        ensures
            final(self).wf(),
            r == raw_time(old(self)@, cyccnt),
            final(self)@ == after_read(old(self)@, cyccnt),
            !old(self)@.wide ==> r <= u32::MAX,
    {
        self.unadjusted_now(cyccnt)
    }

    /// Makes the current raw time the new offset, so that adjusted time
    /// counts from this moment. Only while no wake-up is armed.
    pub fn reset(&mut self, cyccnt: u32)
        requires
            old(self).wf(),
        ensures
            final(self).wf(),
            final(self)@ == (ClockModel {
                cycle_offset: raw_time(old(self)@, cyccnt),
                ..after_read(old(self)@, cyccnt)
            }),
    {
        self.cycle_offset = self.unadjusted_now(cyccnt);
    }

    /// Arms a wake-up at `target` while the counter reads `cyccnt`: reads the
    /// time and returns the reload value for the down-counter, which the
    /// caller writes before clearing the counter's current value.
    pub fn set_compare(&mut self, target: u64, cyccnt: u32) -> (r: u32)
        requires
            old(self).wf(),
            !old(self)@.wide ==> target <= u32::MAX,
        ensures
            final(self).wf(),
            final(self)@ == after_read(old(self)@, cyccnt),
            r == reload_of(ticks_since(old(self)@.wide, target, raw_time(old(self)@, cyccnt))),
            1 <= r <= RELOAD_MAX,
    {
        let now = self.now(cyccnt);
        reload_for(self.wide, target, now)
    }

    /// The instant of tick zero.
    pub fn zero() -> (r: u64)
        ensures
            r == 0,
    {
        0
    }

    /// Called early in the timer interrupt. In the wide configuration the
    /// down-counter is re-armed with the largest reload, so that it neither
    /// keeps firing at the last short interval nor stays silent for longer
    /// than a wrap period of the cycle counter; the caller writes the returned
    /// reload and clears the current value. The narrow configuration needs no
    /// action.
    pub fn clear_compare_flag(&self) -> (r: Option<u32>)
        ensures
            self@.wide ==> r == Some(RELOAD_MAX),
            !self@.wide ==> r is None,
    {
        if self.wide {
            Some(RELOAD_MAX)
        } else {
            None
        }
    }

    /// Called on every timer interrupt: reads the time so that the widening
    /// state follows the counter even when no wake-up is due.
    pub fn on_interrupt(&mut self, cyccnt: u32)
        requires
            old(self).wf(),
        ensures
            final(self).wf(),
            final(self)@ == after_read(old(self)@, cyccnt),
    {
        self.now(cyccnt);
    }

    /// Whether the timer interrupt may be masked while no wake-up is pending:
    /// not in the wide configuration, which needs it to follow counter wraps.
    pub fn disable_interrupt_on_empty_queue(&self) -> (r: bool)
        ensures
            r == !self@.wide,
    {
        !self.wide
    }

    /// Whether the counter is widened to 64 bits.
    pub fn is_wide(&self) -> (r: bool)
        ensures
            r == self@.wide,
    {
        self.wide
    }

    /// Raw time at the last reset.
    pub fn cycle_offset(&self) -> (r: u64)
        ensures
            r == self@.cycle_offset,
    {
        self.cycle_offset
    }

    /// The most recent widened reading (wide configuration).
    pub fn last(&self) -> (r: u64)
        ensures
            r == self@.last,
    {
        self.last
    }
}

/// The state after a reset while the counter reads `cyccnt`.
pub open spec fn after_reset(m: ClockModel, cyccnt: u32) -> ClockModel {
    ClockModel { cycle_offset: raw_time(m, cyccnt), ..after_read(m, cyccnt) }
}

/// Adjusted time read right after a reset is zero, and `d` when the counter
/// has advanced by `d` ticks (less than a wrap period) since the reset.
pub proof fn lemma_adjusted_after_reset(m: ClockModel, cyccnt: u32, d: int)
    requires
        !m.wide ==> m.cycle_offset <= u32::MAX,
        0 <= d < wrap_period(),
        m.wide ==> raw_time(m, cyccnt) + d <= u64::MAX,
    ensures
        elapsed(m.wide, raw_time(after_reset(m, cyccnt), cyccnt), after_reset(m, cyccnt).cycle_offset)
            == 0,
        ({
            let later = ((cyccnt as int + d) % wrap_period()) as u32;
            let r = after_reset(m, cyccnt);
            elapsed(m.wide, raw_time(r, later), r.cycle_offset) == d
        }),
{
    let r = after_reset(m, cyccnt);
    let later = ((cyccnt as int + d) % wrap_period()) as u32;
    if m.wide {
        lemma_extended_step(r.last, cyccnt, r.last as int);
        lemma_extended_step(r.last, later, r.last + d);
    } else {
        if cyccnt as int + d >= wrap_period() {
            assert((later as int - cyccnt as int) % wrap_period() == d);
        }
    }
}

/// With the zero instant as offset, adjusted time is raw time.
pub proof fn lemma_zero_offset_keeps_raw_time(m: ClockModel, cyccnt: u32)
    requires
        m.cycle_offset == 0,
    ensures
        elapsed(m.wide, raw_time(m, cyccnt), m.cycle_offset) == raw_time(m, cyccnt),
{
}

} // verus!
