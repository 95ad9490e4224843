//! The shared mutable container: the current event context together with
//! the in-memory histogram set. It is a synchronization boundary only — it
//! knows nothing of persistence or transmission. The embedding program
//! holds it behind one mutual-exclusion primitive; every operation here is
//! a single critical section on that state.

use vstd::prelude::*;

use crate::event_info::EventInfo;
use crate::histogram::HistogramSet;
use crate::histogram::counts_after_record;
use crate::histogram::total_after_record;

verus! {

/// The state shared between the caller thread and the worker: an immutable
/// event context and the mutable histogram set.
pub struct SharedState {
    info: EventInfo,
    hist: HistogramSet,
}

impl SharedState {
    /// The event context held for every collected event.
    pub closed spec fn info(self) -> EventInfo {
        self.info
    }

    /// The in-memory histogram set.
    pub closed spec fn hist(self) -> HistogramSet {
        self.hist
    }

    pub open spec fn wf(self) -> bool {
        self.hist().wf()
    }

    /// Wraps a context together with a fresh, empty histogram set.
    pub fn new(info: EventInfo, bucket_count: usize) -> (s: SharedState)
        ensures
            s.wf(),
            s.info() == info,
            s.hist().counts().len() == bucket_count,
            forall|j: int| 0 <= j < bucket_count ==> s.hist().counts()[j] == 0,
            s.hist().total() == 0,
    {
        SharedState { info, hist: HistogramSet::new(bucket_count) }
    }

    /// Read-only access to the event context. Safe to call concurrently
    /// with histogram mutation, since the context never changes.
    pub fn event_context(&self) -> (r: &EventInfo)
        ensures
            *r == self.info(),
    {
        &self.info
    }

    /// Records one sample into the given histogram bucket.
    pub fn record(&mut self, bucket: usize) -> (ok: bool)
        requires
            old(self).wf(),
        ensures
            final(self).wf(),
            final(self).info() == old(self).info(),
            ok == (bucket < old(self).hist().counts().len()
                && old(self).hist().total() < u64::MAX),
            final(self).hist().counts() == counts_after_record(
                old(self).hist().counts(), bucket as int, old(self).hist().total()),
            final(self).hist().total() == total_after_record(
                old(self).hist().counts(), bucket as int, old(self).hist().total()),
    {
        self.hist.record(bucket)
    }

    /// An independent copy of the current histogram contents — what a tick
    /// hands to the persistence and transmission collaborators.
    pub fn histogram_snapshot(&self) -> (h: HistogramSet)
        ensures
            h.counts() == self.hist().counts(),
            h.total() == self.hist().total(),
    {
        self.hist.snapshot()
    }

    /// The running number of samples currently held in memory.
    pub fn total_count(&self) -> (t: u64)
        ensures
            t == self.hist().total(),
    {
        self.hist.total_count()
    }

    /// The count held in one bucket, or `None` for a bucket that does not
    /// exist.
    pub fn bucket_value(&self, bucket: usize) -> (v: Option<u64>)
        ensures
            match v {
                Some(c) => bucket < self.hist().counts().len() && c == self.hist()
                    .counts()[bucket as int],
                None => bucket >= self.hist().counts().len(),
            },
    {
        self.hist.bucket_value(bucket)
    }

    /// Empties the histogram set, keeping its bucket structure.
    pub fn reset_histograms(&mut self)
        ensures
            final(self).wf(),
            final(self).info() == old(self).info(),
            final(self).hist().counts().len() == old(self).hist().counts().len(),
            forall|j: int|
                0 <= j < final(self).hist().counts().len()
                    ==> final(self).hist().counts()[j] == 0,
            final(self).hist().total() == 0,
    {
        self.hist.reset()
    }

    /// Replaces the histogram set wholesale — the warm-restore path, after
    /// previously persisted data has been read back and validated.
    pub fn install_histograms(&mut self, h: HistogramSet)
        requires
            h.wf(),
        ensures
            final(self).wf(),
            final(self).info() == old(self).info(),
            final(self).hist() == h,
    {
        self.hist = h;
    }
}

} // verus!
