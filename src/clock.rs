use vstd::prelude::*;

verus! {

/// Time elapsed between two readings of a monotonic clock, in nanoseconds.
/// A reading earlier than the previous one counts as no time at all.
pub open spec fn elapsed_between(last: u64, now: u64) -> nat {
    if now >= last {
        (now - last) as nat
    } else {
        0
    }
}

/// The clock of the frame loop: the instant at which the last frame began.
pub struct FrameClock {
    pub last_tick: u64,
}

impl FrameClock {
    pub fn new(now: u64) -> (r: FrameClock)
        ensures
            r.last_tick == now,
    {
        FrameClock { last_tick: now }
    }

    /// Reads the time since the previous tick and advances the clock to `now`.
    pub fn tick(&mut self, now: u64) -> (dt: u64)
        ensures
            dt == elapsed_between(old(self).last_tick, now),
            final(self).last_tick == if now >= old(self).last_tick { now } else { old(self).last_tick },
    {
        if now >= self.last_tick {
            let dt = now - self.last_tick;
            self.last_tick = now;
            dt
        } else {
            0
        }
    }
}

} // verus!
