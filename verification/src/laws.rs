//! What a loop paced by a fence can rely on, proved of the model in
//! [`crate::gate`]. The contracts of [`crate::fence::Fence`] tie each
//! operation to that model, so every statement here holds of a fence driven
//! by the same clock readings.

use crate::clock::{span_nanos, NANOS_PER_MILLI, NANOS_PER_SEC};
use crate::gate::{Gate, Nap};
use std::time::Duration;
use vstd::prelude::*;

verus! {

/// A fresh fence behaves as if an event had just passed when it was made: a
/// first probe is denied before one interval has gone by since then, and
/// granted from that instant on.
pub proof fn lemma_first_probe(interval: nat, made: nat, now: nat)
    ensures
        Gate::armed(interval, made).open_at(now) <==> now >= made + interval,
        now < made + interval ==> Gate::armed(interval, made).probe(now) == Gate::armed(
            interval,
            made,
        ),
{
}

/// Once a probe has been granted at `granted`, a later probe is denied at any
/// instant before `granted + interval` and granted at or after it.
pub proof fn lemma_rearm_after_allow(gate: Gate, granted: nat, now: nat)
    requires
        gate.open_at(granted),
    ensures
        gate.probe(granted).open_at(now) <==> now >= granted + gate.interval,
{
}

/// Every operation that lets an event through at `now` leaves the watermark
/// at `now + interval`: construction, a granted probe and the end of a
/// blocking pass all arm the fence in the same way.
pub proof fn lemma_watermark_after_event(gate: Gate, now: nat)
    ensures
        gate.rearm(now) == Gate::armed(gate.interval, now),
        gate.rearm(now).watermark == now + gate.interval,
        gate.open_at(now) ==> gate.probe(now) == Gate::armed(gate.interval, now),
{
}

/// Probes never change the interval and never move the watermark back.
pub proof fn lemma_probes_only_advance(gate: Gate, times: Seq<nat>)
    ensures
        gate.after_probes(times).interval == gate.interval,
        gate.after_probes(times).watermark >= gate.watermark,
    decreases times.len(),
{
    if times.len() > 0 {
        lemma_probes_only_advance(gate, times.drop_last());
    }
}

/// Denied probes leave no trace: after any run of probes that all came
/// before the watermark, none was granted, the fence is what it was, and it
/// opens at the same instant as if nobody had asked.
pub proof fn lemma_denials_leave_no_trace(gate: Gate, times: Seq<nat>, now: nat)
    requires
        forall|i: int| 0 <= i < times.len() ==> times[i] < gate.watermark,
    ensures
        gate.opened_count(times) == 0,
        gate.after_probes(times) == gate,
        gate.after_probes(times).open_at(now) == gate.open_at(now),
        gate.after_probes(times).wait_at(now) == gate.wait_at(now),
    decreases times.len(),
{
    if times.len() > 0 {
        lemma_denials_leave_no_trace(gate, times.drop_last(), now);
    }
}

/// A run of probes that are all early, followed by one at or after the
/// watermark, is granted exactly once: by the last probe.
pub proof fn lemma_polling_opens_once(gate: Gate, early: Seq<nat>, now: nat)
    requires
        forall|i: int| 0 <= i < early.len() ==> early[i] < gate.watermark,
        now >= gate.watermark,
    ensures
        gate.opened_count(early.push(now)) == 1,
        gate.after_probes(early.push(now)) == Gate::armed(gate.interval, now),
{
    lemma_denials_leave_no_trace(gate, early, now);
    assert(early.push(now).drop_last() == early);
}

/// Between two granted probes of one run at least one interval has passed,
/// however many probes were made in between and whenever they came.
pub proof fn lemma_granted_probes_spaced(gate: Gate, times: Seq<nat>, first: int, second: int)
    requires
        0 <= first < second < times.len(),
        gate.after_probes(times.take(first)).open_at(times[first]),
        gate.after_probes(times.take(second)).open_at(times[second]),
    ensures
        times[second] >= times[first] + gate.interval,
{
    let head = times.take(first + 1);
    let rest = times.subrange(first + 1, second);
    assert(head.drop_last() == times.take(first));
    assert(head.last() == times[first]);
    lemma_probes_only_advance(gate, times.take(first));
    let armed = gate.after_probes(head);
    assert(armed.watermark == times[first] + gate.interval);
    lemma_probes_split(gate, head, rest);
    assert(head + rest == times.take(second));
    lemma_probes_only_advance(armed, rest);
}

/// Probing a run in two parts gives the same gate as probing it whole.
pub proof fn lemma_probes_split(gate: Gate, head: Seq<nat>, rest: Seq<nat>)
    ensures
        gate.after_probes(head + rest) == gate.after_probes(head).after_probes(rest),
    decreases rest.len(),
{
    if rest.len() == 0 {
        assert(head + rest == head);
    } else {
        lemma_probes_split(gate, head, rest.drop_last());
        assert((head + rest).drop_last() == head + rest.drop_last());
        assert((head + rest).last() == rest.last());
    }
}

/// Minimum spacing of blocking passes. On a fence made at `made`, after any
/// number of passes whose suspensions each lasted at least as long as the
/// fence asked for, the fence is armed from the instant the last pass went on,
/// and that instant is no earlier than `made` plus one interval for each
/// pass.
pub proof fn lemma_sleep_spacing(interval: nat, made: nat, naps: Seq<Nap>)
    requires
        Gate::armed(interval, made).all_honoured(naps),
    ensures
        Gate::armed(interval, made).after_naps(naps).interval == interval,
        Gate::armed(interval, made).after_naps(naps).watermark >= made + (naps.len() + 1)
            * interval,
        naps.len() > 0 ==> naps.last().resumed >= made + naps.len() * interval,
        naps.len() > 0 ==> Gate::armed(interval, made).after_naps(naps) == Gate::armed(
            interval,
            naps.last().resumed,
        ),
    decreases naps.len(),
{
    let fresh = Gate::armed(interval, made);
    if naps.len() == 0 {
        assert((naps.len() + 1) * interval == interval) by (nonlinear_arith)
            requires
                naps.len() == 0,
        ;
    } else {
        let earlier = naps.drop_last();
        lemma_sleep_spacing(interval, made, earlier);
        let before = fresh.after_naps(earlier);
        assert(before.honoured(naps.last()));
        assert(naps.last().resumed >= before.watermark);
        assert((earlier.len() + 1) * interval == naps.len() * interval) by (nonlinear_arith)
            requires
                earlier.len() + 1 == naps.len(),
        ;
        assert((naps.len() + 1) * interval == naps.len() * interval + interval)
            by (nonlinear_arith);
    }
}

/// Drift does not compound. A caller that arrives at or after the watermark
/// is not made to wait at all, and the pass re-arms the fence from the instant
/// the caller goes on: the stale watermark has no say in the next one.
pub proof fn lemma_late_pass_rearms_from_now(gate: Gate, entered: nat, resumed: nat)
    requires
        entered >= gate.watermark,
    ensures
        gate.wait_at(entered) == 0,
        gate.honoured(Nap { entered, resumed }) <==> resumed >= entered,
        gate.rearm(resumed) == Gate::armed(gate.interval, resumed),
{
}

/// A caller that arrives before the watermark is made to wait exactly until
/// the watermark.
pub proof fn lemma_early_pass_waits_to_watermark(gate: Gate, entered: nat)
    requires
        entered < gate.watermark,
    ensures
        entered + gate.wait_at(entered) == gate.watermark,
{
}

/// Whole seconds, whole milliseconds and a duration of the same magnitude
/// arm the same gate, and so gate alike from then on.
pub proof fn lemma_units_agree(secs: u64, millis: u64, dur: Duration)
    requires
        millis == secs * 1000,
        span_nanos(dur) == secs * NANOS_PER_SEC,
    ensures
        Gate::armed(secs as nat * NANOS_PER_SEC as nat, 0) == Gate::armed(
            millis as nat * NANOS_PER_MILLI as nat,
            0,
        ),
        Gate::armed(secs as nat * NANOS_PER_SEC as nat, 0) == Gate::armed(span_nanos(dur), 0),
{
}

} // verus!
