//! The background worker's lifecycle and tick protocol. The worker owns a
//! four-state machine — Idle, Running, Stopping, Stopped — and the effect
//! of each periodic tick on the shared state: persist the current
//! histograms, then try to transmit them. The embedding program runs the
//! actual loop on its own thread, performs the collaborator I/O, and feeds
//! each outcome back through `tick`.

use vstd::prelude::*;

use crate::histogram::HistogramSet;
use crate::histogram::bucket_sum;
use crate::shared_state::SharedState;

verus! {

/// The worker's lifecycle: Idle until started, Running while ticking,
/// Stopping once a quit was requested, Stopped after the final tick. No
/// transition ever leaves Stopped; a stopped worker cannot be restarted.
#[derive(Clone, Copy, PartialEq, Eq, Structural, Debug)]
pub enum WorkerStatus {
    Idle,
    Running,
    Stopping,
    Stopped,
}

/// Whether a start request is honoured: only an opted-in controller whose
/// worker never ran may start.
pub open spec fn start_permitted(active: bool, status: WorkerStatus) -> bool {
    active && status is Idle
}

pub open spec fn status_after_start(status: WorkerStatus, active: bool) -> WorkerStatus {
    if start_permitted(active, status) {
        WorkerStatus::Running
    } else {
        status
    }
}

/// A quit request moves a running worker into its wind-down phase and
/// touches nothing else.
pub open spec fn status_after_quit_request(status: WorkerStatus) -> WorkerStatus {
    if status is Running {
        WorkerStatus::Stopping
    } else {
        status
    }
}

/// A completed quit: a worker that ever ran ends Stopped; one that never
/// started stays Idle, so quitting a fresh worker is a no-op.
pub open spec fn status_after_quit(status: WorkerStatus) -> WorkerStatus {
    match status {
        WorkerStatus::Idle => WorkerStatus::Idle,
        _ => WorkerStatus::Stopped,
    }
}

/// The durable snapshot after one tick. A failed persistence write leaves
/// storage as it was; a persisted-and-acknowledged snapshot becomes
/// eligible for deletion; a persisted but unacknowledged snapshot holds
/// everything that was in memory at the tick.
pub open spec fn durable_after_tick(
    mem_counts: Seq<u64>,
    mem_total: u64,
    durable: Option<(Seq<u64>, u64)>,
    persisted: bool,
    acked: bool,
) -> Option<(Seq<u64>, u64)> {
    if !persisted {
        durable
    } else if acked {
        None
    } else {
        Some((mem_counts, mem_total))
    }
}

/// The in-memory bucket counts after one tick: cleared only once the
/// server acknowledged the transmitted snapshot, retained otherwise.
pub open spec fn counts_after_tick(mem_counts: Seq<u64>, persisted: bool, acked: bool) -> Seq<u64> {
    if persisted && acked {
        Seq::new(mem_counts.len(), |i: int| 0u64)
    } else {
        mem_counts
    }
}

/// The in-memory running total after one tick.
pub open spec fn total_after_tick(mem_total: u64, persisted: bool, acked: bool) -> u64 {
    if persisted && acked {
        0u64
    } else {
        mem_total
    }
}

/// The background worker: its lifecycle status, and its record of the
/// histogram data known to sit in durable storage and not yet acknowledged
/// by the telemetry server.
pub struct MetricsWorker {
    status: WorkerStatus,
    durable: Option<HistogramSet>,
}

impl MetricsWorker {
    pub closed spec fn status(self) -> WorkerStatus {
        self.status
    }

    /// The durable snapshot as plain data: bucket counts and recorded
    /// total, or `None` when storage holds nothing awaiting transmission.
    pub closed spec fn durable_model(self) -> Option<(Seq<u64>, u64)> {
        match self.durable {
            None => None,
            Some(h) => Some((h.counts(), h.total())),
        }
    }

    /// Whatever sits in durable storage is itself self-consistent.
    pub open spec fn wf(self) -> bool {
        self.durable_model() matches Some(d) ==> d.1 == bucket_sum(d.0)
    }

    /// Binds a fresh worker. No background activity begins here:
    /// construction is side-effect-free.
    pub fn new() -> (w: MetricsWorker)
        ensures
            w.wf(),
            w.status() is Idle,
            w.durable_model() is None,
    {
        MetricsWorker { status: WorkerStatus::Idle, durable: None }
    }

    pub fn current_status(&self) -> (s: WorkerStatus)
        ensures
            s == self.status(),
    {
        self.status
    }

    /// The durable snapshot's recorded total, if storage holds one.
    pub fn durable_total(&self) -> (r: Option<u64>)
        ensures
            r == (match self.durable_model() {
                None => None::<u64>,
                Some(d) => Some(d.1),
            }),
    {
        match &self.durable {
            None => None,
            Some(h) => Some(h.total_count()),
        }
    }

    /// Begins the periodic loop. Honoured exactly once: only an idle
    /// worker starts, and a stopped one never restarts.
    pub fn start(&mut self) -> (ok: bool)
        ensures
            ok == (old(self).status() is Idle),
            final(self).status() == (if ok {
                WorkerStatus::Running
            } else {
                old(self).status()
            }),
            final(self).durable_model() == old(self).durable_model(),
    {
        if self.status == WorkerStatus::Idle {
            self.status = WorkerStatus::Running;
            true
        } else {
            false
        }
    }

    /// First half of the quit protocol: asks a running worker to wind
    /// down. The worker observes the request at a tick boundary; an
    /// in-progress tick completes first.
    pub fn request_quit(&mut self)
        ensures
            final(self).status() == status_after_quit_request(old(self).status()),
            final(self).durable_model() == old(self).durable_model(),
    {
        if self.status == WorkerStatus::Running {
            self.status = WorkerStatus::Stopping;
        }
    }

    /// Completes the quit protocol. Once this returns the worker performs
    /// no further ticks; joining the embedding thread is the caller's
    /// side of the protocol.
    pub fn quit(&mut self)
        ensures
            final(self).status() == status_after_quit(old(self).status()),
            final(self).durable_model() == old(self).durable_model(),
    {
        if self.status != WorkerStatus::Idle {
            self.status = WorkerStatus::Stopped;
        }
    }

    /// Notes histogram data known to sit in durable storage — the warm
    /// restore path, before the loop begins.
    pub fn set_durable(&mut self, h: HistogramSet)
        requires
            h.wf(),
        ensures
            final(self).wf(),
            final(self).status() == old(self).status(),
            final(self).durable_model() == Some((h.counts(), h.total())),
    {
        self.durable = Some(h);
    }

    /// One tick: the current histograms were handed to the persistence
    /// collaborator and, if that write succeeded, to the transmission
    /// collaborator. `persisted` and `acked` report those outcomes; this
    /// records their agreed effect. A failed write abandons the tick with
    /// nothing lost; an unacknowledged transmission retains all data for
    /// the next try; an acknowledged one makes the snapshot eligible for
    /// deletion everywhere.
    pub fn tick(&mut self, ev: &mut SharedState, persisted: bool, acked: bool)
        requires
            old(self).status() is Running || old(self).status() is Stopping,
            old(self).wf(),
            old(ev).wf(),
        ensures
            final(self).wf(),
            final(ev).wf(),
            final(self).status() == old(self).status(),
            final(ev).info() == old(ev).info(),
            final(self).durable_model() == durable_after_tick(
                old(ev).hist().counts(),
                old(ev).hist().total(),
                old(self).durable_model(),
                persisted,
                acked,
            ),
            final(ev).hist().counts() == counts_after_tick(
                old(ev).hist().counts(), persisted, acked),
            final(ev).hist().total() == total_after_tick(
                old(ev).hist().total(), persisted, acked),
    {
        if persisted {
            if acked {
                ev.reset_histograms();
                self.durable = None;
                proof {
                    assert(ev.hist().counts() =~= counts_after_tick(
                        old(ev).hist().counts(), persisted, acked));
                }
            } else {
                let snap = ev.histogram_snapshot();
                self.durable = Some(snap);
            }
        }
    }
}

} // verus!
