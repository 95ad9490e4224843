//! The metrics controller: the facade the host application talks to. It
//! owns the shared state and the worker, and exposes the lifecycle —
//! construct, start, tick, stop — together with the sample-recording path
//! and the warm-restore path for previously persisted data.

use vstd::prelude::*;

use crate::event_info::EventInfo;
use crate::histogram::HistogramSet;
use crate::histogram::counts_after_record;
use crate::histogram::total_after_record;
use crate::shared_state::SharedState;
use crate::worker::MetricsWorker;
use crate::worker::WorkerStatus;
use crate::worker::counts_after_tick;
use crate::worker::durable_after_tick;
use crate::worker::start_permitted;
use crate::worker::status_after_quit;
use crate::worker::status_after_quit_request;
use crate::worker::status_after_start;
use crate::worker::total_after_tick;

verus! {

/// Number of buckets a controller's histogram set is built with.
pub const DEFAULT_BUCKET_COUNT: usize = 16;

/// The metrics controller: one per host application session. All
/// externally visible operations are idempotent with respect to already
/// matching state, and none of them panics.
pub struct MetricsController {
    ev: SharedState,
    mw: MetricsWorker,
    active: bool,
}

impl MetricsController {
    pub closed spec fn ev(self) -> SharedState {
        self.ev
    }

    pub closed spec fn mw(self) -> MetricsWorker {
        self.mw
    }

    /// The opt-in flag fixed at construction: an inactive controller never
    /// starts background collection.
    pub closed spec fn active(self) -> bool {
        self.active
    }

    pub open spec fn wf(self) -> bool {
        self.ev().wf() && self.mw().wf()
    }

    /// Constructs the controller with the host's opt-in policy: builds the
    /// event context and shared state, and binds an idle worker.
    /// Construction never blocks on I/O and never fails; empty strings are
    /// accepted.
    pub fn with_active(
        active: bool,
        app_name: String,
        app_version: String,
        app_update_channel: String,
        app_build_id: String,
        app_platform: String,
        locale: String,
        device: String,
        arch: String,
        os: String,
        os_version: String,
    ) -> (c: MetricsController)
        ensures
            c.wf(),
            c.active() == active,
            c.mw().status() is Idle,
            c.mw().durable_model() is None,
            c.ev().info().locale == locale,
            c.ev().info().os == os,
            c.ev().info().os_version == os_version,
            c.ev().info().device == device,
            c.ev().info().app_name == app_name,
            c.ev().info().app_version == app_version,
            c.ev().info().app_update_channel == app_update_channel,
            c.ev().info().app_build_id == app_build_id,
            c.ev().info().app_platform == app_platform,
            c.ev().info().arch == arch,
            c.ev().hist().counts().len() == DEFAULT_BUCKET_COUNT,
            forall|j: int|
                0 <= j < DEFAULT_BUCKET_COUNT ==> c.ev().hist().counts()[j] == 0,
            c.ev().hist().total() == 0,
    {
        let info = EventInfo::new(
            locale,
            os,
            os_version,
            device,
            app_name,
            app_version,
            app_update_channel,
            app_build_id,
            app_platform,
            arch,
        );
        MetricsController {
            ev: SharedState::new(info, DEFAULT_BUCKET_COUNT),
            mw: MetricsWorker::new(),
            active,
        }
    }

    /// Constructs an opted-in controller from the host's identity strings.
    pub fn new(
        app_name: String,
        app_version: String,
        app_update_channel: String,
        app_build_id: String,
        app_platform: String,
        locale: String,
        device: String,
        arch: String,
        os: String,
        os_version: String,
    ) -> (c: MetricsController)
        ensures
            c.wf(),
            c.active(),
            c.mw().status() is Idle,
            c.mw().durable_model() is None,
            c.ev().info().locale == locale,
            c.ev().info().os == os,
            c.ev().info().os_version == os_version,
            c.ev().info().device == device,
            c.ev().info().app_name == app_name,
            c.ev().info().app_version == app_version,
            c.ev().info().app_update_channel == app_update_channel,
            c.ev().info().app_build_id == app_build_id,
            c.ev().info().app_platform == app_platform,
            c.ev().info().arch == arch,
            c.ev().hist().counts().len() == DEFAULT_BUCKET_COUNT,
            forall|j: int|
                0 <= j < DEFAULT_BUCKET_COUNT ==> c.ev().hist().counts()[j] == 0,
            c.ev().hist().total() == 0,
    {
        MetricsController::with_active(
            true,
            app_name,
            app_version,
            app_update_channel,
            app_build_id,
            app_platform,
            locale,
            device,
            arch,
            os,
            os_version,
        )
    }

    /// Starts the metrics service. Returns whether the start happened:
    /// `false` when the worker already ran or the host opted out. Nothing
    /// but the worker status changes.
    pub fn start_metrics(&mut self) -> (ok: bool)
        ensures
            ok == start_permitted(old(self).active(), old(self).mw().status()),
            final(self).mw().status() == status_after_start(
                old(self).mw().status(), old(self).active()),
            final(self).mw().durable_model() == old(self).mw().durable_model(),
            final(self).ev() == old(self).ev(),
            final(self).active() == old(self).active(),
    {
        if self.active {
            self.mw.start()
        } else {
            false
        }
    }

    /// Stops the metrics service: completes the worker's quit protocol and
    /// discards the samples collected since the last successful flush —
    /// only data already committed to durable storage is retained. Calling
    /// this on a controller that never started, or stopping twice, is a
    /// no-op.
    pub fn stop_collecting(&mut self)
        requires
            old(self).wf(),
        ensures
            final(self).wf(),
            final(self).mw().status() == status_after_quit(old(self).mw().status()),
            final(self).mw().durable_model() == old(self).mw().durable_model(),
            final(self).active() == old(self).active(),
            final(self).ev().info() == old(self).ev().info(),
            (old(self).mw().status() is Running || old(self).mw().status() is Stopping)
                ==> (final(self).ev().hist().total() == 0
                    && final(self).ev().hist().counts().len()
                        == old(self).ev().hist().counts().len()
                    && forall|j: int|
                        0 <= j < final(self).ev().hist().counts().len()
                            ==> final(self).ev().hist().counts()[j] == 0),
            (old(self).mw().status() is Idle || old(self).mw().status() is Stopped)
                ==> final(self).ev() == old(self).ev(),
    {
        let s = self.mw.current_status();
        self.mw.quit();
        if s == WorkerStatus::Running || s == WorkerStatus::Stopping {
            self.ev.reset_histograms();
        }
    }

    /// First half of the quit protocol: asks a running worker to wind
    /// down, without blocking.
    pub fn request_stop(&mut self)
        ensures
            final(self).mw().status() == status_after_quit_request(old(self).mw().status()),
            final(self).mw().durable_model() == old(self).mw().durable_model(),
            final(self).ev() == old(self).ev(),
            final(self).active() == old(self).active(),
    {
        self.mw.request_quit();
    }

    /// Records one sample into the given bucket. Accumulation is
    /// in-memory and independent of the opt-in flag; only background
    /// activity is gated by it.
    pub fn record(&mut self, bucket: usize) -> (ok: bool)
        requires
            old(self).wf(),
        ensures
            final(self).wf(),
            ok == (bucket < old(self).ev().hist().counts().len()
                && old(self).ev().hist().total() < u64::MAX),
            final(self).ev().hist().counts() == counts_after_record(
                old(self).ev().hist().counts(), bucket as int, old(self).ev().hist().total()),
            final(self).ev().hist().total() == total_after_record(
                old(self).ev().hist().counts(), bucket as int, old(self).ev().hist().total()),
            final(self).ev().info() == old(self).ev().info(),
            final(self).mw() == old(self).mw(),
            final(self).active() == old(self).active(),
    {
        self.ev.record(bucket)
    }

    /// Drives one worker tick against the shared state. `persisted` and
    /// `acked` report the outcomes of the persistence write and of the
    /// transmission attempt for the snapshot taken at this tick. Returns
    /// whether a tick ran: only a running or winding-down worker ticks, so
    /// collaborator failures never terminate the loop — they only leave
    /// data in place for the next try.
    pub fn tick(&mut self, persisted: bool, acked: bool) -> (ticked: bool)
        requires
            old(self).wf(),
        ensures
            final(self).wf(),
            ticked == (old(self).mw().status() is Running
                || old(self).mw().status() is Stopping),
            final(self).mw().status() == old(self).mw().status(),
            final(self).active() == old(self).active(),
            final(self).ev().info() == old(self).ev().info(),
            ticked ==> (final(self).mw().durable_model() == durable_after_tick(
                old(self).ev().hist().counts(),
                old(self).ev().hist().total(),
                old(self).mw().durable_model(),
                persisted,
                acked,
            ) && final(self).ev().hist().counts() == counts_after_tick(
                old(self).ev().hist().counts(), persisted, acked)
                && final(self).ev().hist().total() == total_after_tick(
                old(self).ev().hist().total(), persisted, acked)),
            !ticked ==> (final(self).ev() == old(self).ev()
                && final(self).mw() == old(self).mw()),
    {
        let s = self.mw.current_status();
        if s == WorkerStatus::Running || s == WorkerStatus::Stopping {
            self.mw.tick(&mut self.ev, persisted, acked);
            true
        } else {
            false
        }
    }

    /// Warm restore before start: installs histogram data read back from
    /// durable storage, so counts survive a process restart. Accepted only
    /// while the worker is idle and only if the data passes the
    /// self-consistency check; returns whether it was installed.
    pub fn load_persisted(&mut self, data: HistogramSet) -> (ok: bool)
        requires
            old(self).wf(),
        ensures
            final(self).wf(),
            ok == (old(self).mw().status() is Idle && data.wf()),
            ok ==> (final(self).ev().hist().counts() == data.counts()
                && final(self).ev().hist().total() == data.total()
                && final(self).mw().durable_model() == Some((data.counts(), data.total()))),
            !ok ==> (final(self).ev() == old(self).ev()
                && final(self).mw() == old(self).mw()),
            final(self).mw().status() == old(self).mw().status(),
            final(self).active() == old(self).active(),
            final(self).ev().info() == old(self).ev().info(),
    {
        let s = self.mw.current_status();
        if s == WorkerStatus::Idle && data.check_consistent() {
            let snap = data.snapshot();
            self.ev.install_histograms(snap);
            self.mw.set_durable(data);
            true
        } else {
            false
        }
    }

    pub fn worker_status(&self) -> (s: WorkerStatus)
        ensures
            s == self.mw().status(),
    {
        self.mw.current_status()
    }

    pub fn is_active(&self) -> (a: bool)
        ensures
            a == self.active(),
    {
        self.active
    }

    /// The running number of samples currently held in memory.
    pub fn sample_total(&self) -> (t: u64)
        ensures
            t == self.ev().hist().total(),
    {
        self.ev.total_count()
    }

    /// The count held in one in-memory bucket, or `None` for a bucket that
    /// does not exist.
    pub fn bucket_value(&self, bucket: usize) -> (v: Option<u64>)
        ensures
            match v {
                Some(c) => bucket < self.ev().hist().counts().len() && c == self.ev()
                    .hist().counts()[bucket as int],
                None => bucket >= self.ev().hist().counts().len(),
            },
    {
        self.ev.bucket_value(bucket)
    }

    /// An independent copy of the in-memory histograms — what the
    /// embedding program hands to the collaborators at a tick.
    pub fn histogram_snapshot(&self) -> (h: HistogramSet)
        ensures
            h.counts() == self.ev().hist().counts(),
            h.total() == self.ev().hist().total(),
    {
        self.ev.histogram_snapshot()
    }

    /// The recorded total of the snapshot known to sit in durable storage,
    /// if any does.
    pub fn persisted_total(&self) -> (r: Option<u64>)
        ensures
            r == (match self.mw().durable_model() {
                None => None::<u64>,
                Some(d) => Some(d.1),
            }),
    {
        self.mw.durable_total()
    }

    /// Read-only access to the event context.
    pub fn event_context(&self) -> (r: &EventInfo)
        ensures
            *r == self.ev().info(),
    {
        self.ev.event_context()
    }
}

} // verus!
