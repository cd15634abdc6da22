//! The model of a fence: an interval and the instant before which no event
//! may proceed. Instants and intervals are natural numbers of nanoseconds.

use vstd::prelude::*;

verus! {

/// What a fence is, mathematically.
pub struct Gate {
    /// The minimum spacing between two events.
    pub interval: nat,
    /// The earliest instant at which the next event may proceed.
    pub watermark: nat,
}

/// One blocking pass through a gate: the instant at which the caller arrived
/// and the instant at which it went on.
pub struct Nap {
    pub entered: nat,
    pub resumed: nat,
}

impl Gate {
    /// A gate that behaves as if an event had just passed at `now`.
    pub open spec fn armed(interval: nat, now: nat) -> Gate {
        Gate { interval, watermark: now + interval }
    }

    /// Whether an event may proceed at `now`.
    pub open spec fn open_at(self, now: nat) -> bool {
        now >= self.watermark
    }

    /// How long a caller arriving at `now` still has to wait.
    pub open spec fn wait_at(self, now: nat) -> nat {
        if now < self.watermark {
            (self.watermark - now) as nat
        } else {
            0
        }
    }

    /// The state after an event passed at `now`: shut for one interval from
    /// `now`, whatever the watermark was.
    pub open spec fn rearm(self, now: nat) -> Gate {
        Gate { interval: self.interval, watermark: now + self.interval }
    }

    /// The state after a non-blocking probe at `now`: re-armed if it was
    /// open, untouched if it was shut.
    pub open spec fn probe(self, now: nat) -> Gate {
        if self.open_at(now) {
            self.rearm(now)
        } else {
            self
        }
    }

    /// The state after a run of non-blocking probes, in order.
    pub open spec fn after_probes(self, times: Seq<nat>) -> Gate
        decreases times.len(),
    {
        if times.len() == 0 {
            self
        } else {
            self.after_probes(times.drop_last()).probe(times.last())
        }
    }

    /// How many probes of a run were granted.
    pub open spec fn opened_count(self, times: Seq<nat>) -> nat
        decreases times.len(),
    {
        if times.len() == 0 {
            0
        } else {
            let before = self.after_probes(times.drop_last());
            let earlier = self.opened_count(times.drop_last());
            if before.open_at(times.last()) {
                earlier + 1
            } else {
                earlier
            }
        }
    }

    /// Whether the suspension of a blocking pass lasted at least as long as
    /// this gate asked for.
    pub open spec fn honoured(self, nap: Nap) -> bool {
        nap.resumed >= nap.entered + self.wait_at(nap.entered)
    }

    /// The state after a run of blocking passes: each one re-arms from the
    /// instant at which the caller went on.
    pub open spec fn after_naps(self, naps: Seq<Nap>) -> Gate
        decreases naps.len(),
    {
        if naps.len() == 0 {
            self
        } else {
            self.after_naps(naps.drop_last()).rearm(naps.last().resumed)
        }
    }

    /// Whether every suspension of a run of blocking passes was honoured.
    pub open spec fn all_honoured(self, naps: Seq<Nap>) -> bool
        decreases naps.len(),
    {
        naps.len() == 0 || (self.all_honoured(naps.drop_last()) && self.after_naps(
            naps.drop_last(),
        ).honoured(naps.last()))
    }
}

} // verus!
