//! Model of the hardware timer: a monotonic tick counter of fixed bit width
//! with defined wraparound, and a single compare/alarm channel.
//!
//! The counter wraps at the width of `u64`. A deadline is considered reached
//! when it lies in the half-range behind the current count, so a deadline
//! armed "in the past" resolves immediately rather than after a full wrap.

use vstd::prelude::*;

verus! {

/// Half of the tick counter's range: the window within which a deadline
/// counts as already reached.
pub const TICK_HALF_RANGE: u64 = 0x8000_0000_0000_0000;

/// The tick count `base + delta`, wrapping at the counter's bit width.
pub open spec fn tick_add(base: u64, delta: u64) -> u64 {
    vstd::wrapping::u64_specs::wrapping_add(base, delta)
}

/// Whether `deadline` is reached at counter value `now`: the wrapped
/// distance from `deadline` up to `now` is less than half the range.
pub open spec fn deadline_reached(now: u64, deadline: u64) -> bool {
    vstd::wrapping::u64_specs::wrapping_sub(now, deadline) < TICK_HALF_RANGE
}

/// Computes the deadline `delta` ticks after `base`, with wraparound.
pub fn deadline_after(base: u64, delta: u64) -> (r: u64)
    ensures
        r == tick_add(base, delta),
{
    base.wrapping_add(delta)
}

/// Decides whether `deadline` is reached at counter value `now`.
pub fn is_reached(now: u64, deadline: u64) -> (r: bool)
    ensures
        r == deadline_reached(now, deadline),
{
    now.wrapping_sub(deadline) < TICK_HALF_RANGE
}

/// The single hardware compare/alarm channel and its monotonic counter.
///
/// At most one deadline is ever outstanding: `armed` is an `Option`, so the
/// bound holds by construction. Arming overwrites any unfired deadline;
/// disarming cancels without firing.
pub struct TimerDriver {
    /// Current value of the monotonic hardware counter.
    now: u64,
    /// The armed compare value, if any.
    armed: Option<u64>,
}

impl TimerDriver {
    /// Current counter value.
    pub closed spec fn spec_now(self) -> u64 {
        self.now
    }

    /// The armed deadline, if one is outstanding.
    pub closed spec fn spec_armed(self) -> Option<u64> {
        self.armed
    }

    /// How many hardware alarms are armed: 0 or 1, by construction.
    pub open spec fn armed_count(self) -> nat {
        if self.spec_armed() is Some {
            1
        } else {
            0
        }
    }

    /// A fresh driver: counter at zero, alarm channel clear.
    pub fn new() -> (r: TimerDriver)
        ensures
            r.spec_now() == 0,
            r.spec_armed() is None,
    {
        TimerDriver { now: 0, armed: None }
    }

    /// Reads the counter. Monotonic: nothing but `advance` changes it.
    pub fn now(&self) -> (r: u64)
        ensures
            r == self.spec_now(),
    {
        self.now
    }

    /// The counter moves forward by `delta` ticks, wrapping at its bit
    /// width. The alarm channel is untouched.
    pub fn advance(&mut self, delta: u64)
        ensures
            final(self).spec_now() == tick_add(old(self).spec_now(), delta),
            final(self).spec_armed() == old(self).spec_armed(),
    {
        self.now = self.now.wrapping_add(delta);
    }

    /// Programs the compare channel to fire at `deadline`, overwriting any
    /// previously armed but unfired deadline.
    pub fn arm(&mut self, deadline: u64)
        ensures
            final(self).spec_armed() == Some(deadline),
            final(self).spec_now() == old(self).spec_now(),
    {
        self.armed = Some(deadline);
    }

    /// Reads back the armed compare value, if any.
    pub fn armed_deadline(&self) -> (r: Option<u64>)
        ensures
            r == self.spec_armed(),
    {
        self.armed
    }

    /// Cancels a pending compare without firing it.
    pub fn disarm(&mut self)
        ensures
            final(self).spec_armed() is None,
            final(self).spec_now() == old(self).spec_now(),
    {
        self.armed = None;
    }

    /// Whether the armed deadline, if any, is reached at the current
    /// counter value. A deadline armed in the past is due at once.
    pub fn alarm_due(&self) -> (r: bool)
        ensures
            r == (self.spec_armed() matches Some(d) && deadline_reached(
                self.spec_now(),
                d,
            )),
    {
        match self.armed {
            Some(d) => is_reached(self.now, d),
            None => false,
        }
    }

    /// Consumes a due alarm: the channel is cleared exactly when the
    /// deadline was reached, and reports whether it fired.
    pub fn fire_if_due(&mut self) -> (fired: bool)
        ensures
            fired == (old(self).spec_armed() matches Some(d) && deadline_reached(
                old(self).spec_now(),
                d,
            )),
            final(self).spec_now() == old(self).spec_now(),
            final(self).spec_armed() == if fired {
                None::<u64>
            } else {
                old(self).spec_armed()
            },
    {
        let due = self.alarm_due();
        if due {
            self.armed = None;
        }
        due
    }
}

} // verus!
