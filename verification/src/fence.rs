//! The executable fence.
//!
//! A fence counts time in nanoseconds from the moment it was made. Every
//! operation comes in two forms: one that is handed the clock reading, whose
//! contract is exact, and one that takes the reading itself and then does
//! what the first form does.

use crate::clock::{
    clock_elapsed, clock_start, nanos_in, span_nanos, MAX_SPAN_NANOS, NANOS_PER_MILLI,
    NANOS_PER_SEC,
};
use crate::gate::Gate;
use std::time::Duration;
use std::time::Instant;
use vstd::prelude::*;

verus! {

/// A timed rate limiter. It is useful for capping the frame rate of a UI
/// loop, or for enforcing a period on a polling loop: place a fence at the
/// end of the loop body to control how often it runs.
pub struct Fence {
    /// The minimum spacing, in nanoseconds.
    interval: u128,
    /// The clock reading that the fence counts from.
    origin: Instant,
    /// The earliest instant at which the next event may proceed, in
    /// nanoseconds after `origin`.
    watermark: u128,
}

impl View for Fence {
    type V = Gate;

    closed spec fn view(&self) -> Gate {
        Gate { interval: self.interval as nat, watermark: self.watermark as nat }
    }
}

impl Fence {
    /// No interval is longer than the longest `Duration`, so a clock reading
    /// and an interval always add up within `u128`.
    #[verifier::type_invariant]
    spec fn interval_fits(&self) -> bool {
        self.interval <= MAX_SPAN_NANOS
    }

    /// Construct a fence from the specified nanoseconds, which must not
    /// exceed what a `Duration` can hold. The fence starts counting at once,
    /// and behaves as if an event had just passed: the first event has to
    /// wait for one full interval.
    pub fn from_nanos(nanos: u128) -> (fence: Fence)
        requires
            nanos <= MAX_SPAN_NANOS,
        ensures
            fence@ == Gate::armed(nanos as nat, 0),
    {
        Fence { interval: nanos, origin: clock_start(), watermark: nanos }
    }

    /// Construct a fence from the specified seconds.
    pub fn from_secs(s: u64) -> (fence: Fence)
        ensures
            fence@ == Gate::armed(s as nat * NANOS_PER_SEC as nat, 0),
    {
        Fence::from_nanos(s as u128 * NANOS_PER_SEC)
    }

    /// Construct a fence from the specified milliseconds.
    pub fn from_millis(m: u64) -> (fence: Fence)
        ensures
            fence@ == Gate::armed(m as nat * NANOS_PER_MILLI as nat, 0),
    {
        Fence::from_nanos(m as u128 * NANOS_PER_MILLI)
    }

    /// Construct a fence from the given duration.
    pub fn from_duration(dur: Duration) -> (fence: Fence)
        ensures
            fence@ == Gate::armed(span_nanos(dur), 0),
    {
        Fence::from_nanos(nanos_in(&dur))
    }

    /// The fence's interval, in nanoseconds.
    pub fn interval_nanos(&self) -> (nanos: u128)
        ensures
            nanos == self@.interval,
            nanos <= MAX_SPAN_NANOS,
    {
        proof {
            use_type_invariant(self);
        }
        self.interval
    }

    /// The earliest instant at which the next event may proceed, in
    /// nanoseconds since the fence was made.
    pub fn watermark_nanos(&self) -> (nanos: u128)
        ensures
            nanos == self@.watermark,
    {
        self.watermark
    }

    /// The time that has passed on the monotonic clock since the fence was
    /// made, in nanoseconds.
    pub fn now(&self) -> (now: u128)
        ensures
            now <= MAX_SPAN_NANOS,
    {
        nanos_in(&clock_elapsed(&self.origin))
    }

    /// Whether an event may proceed at `now`. An open gate is shut again for
    /// one interval from `now`; a shut gate is left as it is, so that the
    /// caller can try again against the same watermark.
    pub fn allow_at(&mut self, now: u128) -> (opened: bool)
        requires
            old(self)@.open_at(now as nat) ==> now + old(self)@.interval <= u128::MAX,
        ensures
            opened == old(self)@.open_at(now as nat),
            final(self)@ == old(self)@.probe(now as nat),
    {
        if now < self.watermark {
            return false;
        }
        self.rearm_at(now);
        true
    }

    /// How long a caller arriving at `now` still has to wait, in
    /// nanoseconds: nothing once the watermark has passed.
    pub fn pending_at(&self, now: u128) -> (wait: u128)
        ensures
            wait == self@.wait_at(now as nat),
    {
        if now < self.watermark {
            self.watermark - now
        } else {
            0
        }
    }

    /// Shut the fence for one interval from `now`, whatever the watermark
    /// was. This is what a blocking pass does once its wait is over.
    pub fn rearm_at(&mut self, now: u128)
        requires
            now + old(self)@.interval <= u128::MAX,
        ensures
            final(self)@ == old(self)@.rearm(now as nat),
    {
        proof {
            use_type_invariant(&*self);
        }
        self.watermark = now + self.interval;
    }

    /// Non-blocking gate: reads the clock once and reports whether an event
    /// may proceed at that reading, as [`Fence::allow_at`] does.
    pub fn allow(&mut self) -> (opened: bool)
        ensures
            exists|now: nat|
                {
                    &&& now <= MAX_SPAN_NANOS
                    &&& opened == old(self)@.open_at(now)
                    &&& final(self)@ == #[trigger] old(self)@.probe(now)
                },
    {
        let now: u128 = self.now();
        proof {
            use_type_invariant(&*self);
        }
        let ghost before = self@;
        let opened = self.allow_at(now);
        assert(self@ == before.probe(now as nat));
        opened
    }

    /// First half of a blocking pass: reads the clock once and reports how
    /// long the caller has to be suspended, in nanoseconds, as
    /// [`Fence::pending_at`] does.
    pub fn pending(&self) -> (wait: u128)
        ensures
            exists|now: nat| now <= MAX_SPAN_NANOS && wait == #[trigger] self@.wait_at(now),
    {
        let now: u128 = self.now();
        let wait = self.pending_at(now);
        assert(wait == self@.wait_at(now as nat));
        wait
    }

    /// Second half of a blocking pass: reads the clock once, after the wait,
    /// and shuts the fence for one interval from that reading, as
    /// [`Fence::rearm_at`] does.
    pub fn rearm(&mut self)
        ensures
            exists|now: nat|
                now <= MAX_SPAN_NANOS && final(self)@ == #[trigger] old(self)@.rearm(now),
    {
        let now: u128 = self.now();
        proof {
            use_type_invariant(&*self);
        }
        let ghost before = self@;
        self.rearm_at(now);
        assert(self@ == before.rearm(now as nat));
    }
}

} // verus!
