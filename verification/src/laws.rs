//! The guarantees that span several operations, stated once and proved
//! over the same transition functions the executable contracts use: the
//! single-start discipline, the quit protocol's end states, snapshot
//! self-consistency, and retention of persisted data under failing
//! transmissions.

use vstd::prelude::*;

use crate::histogram::apply_records;
use crate::histogram::bucket_sum;
use crate::histogram::lemma_bucket_sum_bound;
use crate::histogram::lemma_bucket_sum_update;
use crate::worker::WorkerStatus;
use crate::worker::counts_after_tick;
use crate::worker::durable_after_tick;
use crate::worker::start_permitted;
use crate::worker::status_after_quit;
use crate::worker::status_after_quit_request;
use crate::worker::status_after_start;
use crate::worker::total_after_tick;

verus! {

/// A fresh, opted-in controller starts exactly once: the first start
/// request is honoured and a second one, without an intervening stop, is
/// refused.
pub proof fn lemma_start_twice(active: bool, status: WorkerStatus)
    requires
        active,
        status is Idle,
    ensures
        start_permitted(active, status),
        !start_permitted(active, status_after_start(status, active)),
{
}

/// Quitting a worker that never started leaves it idle: stopping a fresh
/// controller is a no-op.
pub proof fn lemma_quit_when_idle(status: WorkerStatus)
    requires
        status is Idle,
    ensures
        status_after_quit(status) == status,
{
}

/// Stopping is idempotent on the worker state.
pub proof fn lemma_stop_idempotent(status: WorkerStatus)
    ensures
        status_after_quit(status_after_quit(status)) == status_after_quit(status),
{
}

/// A worker that was started and then told to stop ends fully stopped —
/// and no transition of any kind ever leaves the stopped state, so it can
/// never be observed ticking again.
pub proof fn lemma_start_stop_terminates(active: bool, status: WorkerStatus)
    requires
        start_permitted(active, status),
    ensures
        status_after_quit(status_after_start(status, active)) is Stopped,
        forall|a: bool| status_after_start(WorkerStatus::Stopped, a) is Stopped,
        status_after_quit_request(WorkerStatus::Stopped) is Stopped,
        status_after_quit(WorkerStatus::Stopped) is Stopped,
{
}

/// Folding a run of samples over a histogram never decreases the running
/// total: recording loses nothing.
pub proof fn lemma_apply_records_total_grows(c: Seq<u64>, total: u64, samples: Seq<int>)
    ensures
        apply_records(c, total, samples).1 >= total,
    decreases samples.len(),
{
    if samples.len() > 0 {
        lemma_apply_records_total_grows(c, total, samples.drop_last());
    }
}

/// Folding a run of samples preserves self-consistency: the running total
/// still equals the sum of the bucket counts afterwards.
pub proof fn lemma_apply_records_consistent(c: Seq<u64>, total: u64, samples: Seq<int>)
    requires
        total == bucket_sum(c),
    ensures
        apply_records(c, total, samples).1 == bucket_sum(apply_records(c, total, samples).0),
    decreases samples.len(),
{
    if samples.len() > 0 {
        let prev = apply_records(c, total, samples.drop_last());
        lemma_apply_records_consistent(c, total, samples.drop_last());
        let b = samples.last();
        if 0 <= b && b < prev.0.len() && prev.1 < u64::MAX {
            lemma_bucket_sum_bound(prev.0, b);
            lemma_bucket_sum_update(prev.0, b, (prev.0[b] + 1) as u64);
        }
    }
}

/// Every snapshot a tick hands to persistence is self-consistent,
/// whatever run of samples preceded it: the snapshot's recorded total
/// equals the sum of its bucket counts, so no persisted snapshot is ever
/// torn.
pub proof fn lemma_snapshots_consistent(c: Seq<u64>, total: u64, samples: Seq<int>)
    requires
        total == bucket_sum(c),
    ensures
        ({
            let end = apply_records(c, total, samples);
            &&& end.1 == bucket_sum(end.0)
            &&& durable_after_tick(end.0, end.1, None, true, false) matches Some(d)
                && d.1 == bucket_sum(d.0)
        }),
{
    lemma_apply_records_consistent(c, total, samples);
}

/// When every transmission fails, repeated ticks lose nothing: a failing
/// tick persists everything in memory and retains memory as it was, and
/// however many samples arrive in between, the next failing tick persists
/// at least as much as the previous one did.
pub proof fn lemma_failed_transmission_keeps_data(
    c: Seq<u64>,
    total: u64,
    durable: Option<(Seq<u64>, u64)>,
    samples: Seq<int>,
)
    ensures
        ({
            let d1 = durable_after_tick(c, total, durable, true, false);
            let m1 = counts_after_tick(c, true, false);
            let t1 = total_after_tick(total, true, false);
            let mid = apply_records(m1, t1, samples);
            let d2 = durable_after_tick(mid.0, mid.1, d1, true, false);
            &&& d1 matches Some(first) && first.0 == c && first.1 == total
            &&& m1 == c
            &&& t1 == total
            &&& d2 matches Some(later) && later.1 >= total
        }),
{
    lemma_apply_records_total_grows(c, total, samples);
}

} // verus!
