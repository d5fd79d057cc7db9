//! Clock arithmetic of the perception and fusion ticks. Times are
//! nanoseconds on a monotonic clock.
use vstd::prelude::*;

verus! {

/// Nanoseconds per millisecond.
pub const NANOS_PER_MILLI: u64 = 1_000_000;

/// Time from `earlier` to `now`, or zero when `now` lies before `earlier`.
pub open spec fn saturating_elapsed(now: u64, earlier: u64) -> nat {
    if now >= earlier {
        (now - earlier) as nat
    } else {
        0
    }
}

/// The age in whole milliseconds of the last semantic update, capped at
/// `u32::MAX`; `u32::MAX` when there never was one.
pub open spec fn spec_semantic_age_ms(last_update: Option<u64>, now: u64) -> u32 {
    match last_update {
        Some(t) => {
            let ms = saturating_elapsed(now, t) / (NANOS_PER_MILLI as nat);
            if ms <= u32::MAX {
                ms as u32
            } else {
                u32::MAX
            }
        },
        None => u32::MAX,
    }
}

/// How old the latest semantic valence is at `now`, in milliseconds.
pub fn semantic_age_ms(last_update: Option<u64>, now: u64) -> (age: u32)
    ensures
        age == spec_semantic_age_ms(last_update, now),
{
    match last_update {
        Some(t) => {
            let elapsed: u64 = now.saturating_sub(t);
            let ms: u64 = elapsed / NANOS_PER_MILLI;
            if ms <= u32::MAX as u64 {
                ms as u32
            } else {
                u32::MAX
            }
        },
        None => u32::MAX,
    }
}

/// The time of the previous fusion tick, from which each tick measures the
/// time that passed.
#[derive(Debug)]
pub struct TickClock {
    last_tick: Option<u64>,
}

impl TickClock {
    pub closed spec fn last_tick(&self) -> Option<u64> {
        self.last_tick
    }

    /// A clock that has not ticked yet.
    pub fn new() -> (c: Self)
        ensures
            c.last_tick() is None,
    {
        TickClock { last_tick: None }
    }

    /// Records a tick at `now` and returns the time since the previous tick:
    /// zero on the first tick, and zero when `now` lies before it.
    pub fn advance(&mut self, now: u64) -> (dt: u64)
        ensures
            final(self).last_tick() == Some(now),
            dt == match old(self).last_tick() {
                Some(prev) => saturating_elapsed(now, prev),
                None => 0,
            },
    {
        let dt = match self.last_tick {
            Some(prev) => now.saturating_sub(prev),
            None => 0,
        };
        self.last_tick = Some(now);
        dt
    }
}

} // verus!
