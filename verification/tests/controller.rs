use metrics_controller::HistogramSet;
use metrics_controller::MetricsController;
use metrics_controller::WorkerStatus;
use metrics_controller::DEFAULT_BUCKET_COUNT;

// A controller with predefined identity values.
fn create_metrics_controller() -> MetricsController {
    MetricsController::new(
        "app".to_string(),
        "1.0".to_string(),
        "default".to_string(),
        "20160305".to_string(),
        "rust".to_string(),
        "en-us".to_string(),
        "linux".to_string(),
        "1.2.3".to_string(),
        "raspberry-pi".to_string(),
        "arm".to_string(),
    )
}

#[test]
fn new_controller_worker_idle() {
    let c = create_metrics_controller();
    assert_eq!(c.worker_status(), WorkerStatus::Idle);
    assert!(c.is_active());
    assert_eq!(c.sample_total(), 0);
    assert_eq!(c.persisted_total(), None);
    let h = c.histogram_snapshot();
    assert_eq!(h.bucket_count(), DEFAULT_BUCKET_COUNT);
    assert_eq!(h.total_count(), 0);
}

#[test]
fn new_controller_keeps_identity_strings() {
    let c = create_metrics_controller();
    let info = c.event_context();
    assert_eq!(info.app_name, "app");
    assert_eq!(info.app_version, "1.0");
    assert_eq!(info.app_update_channel, "default");
    assert_eq!(info.app_build_id, "20160305");
    assert_eq!(info.app_platform, "rust");
    assert_eq!(info.locale, "en-us");
    assert_eq!(info.device, "linux");
    assert_eq!(info.arch, "1.2.3");
    assert_eq!(info.os, "raspberry-pi");
    assert_eq!(info.os_version, "arm");
}

#[test]
fn event_info_clone_is_independent_copy() {
    let c = create_metrics_controller();
    let copy = c.event_context().clone();
    assert_eq!(copy.locale, c.event_context().locale);
    assert_eq!(copy.os, c.event_context().os);
    assert_eq!(copy.os_version, c.event_context().os_version);
    assert_eq!(copy.device, c.event_context().device);
    assert_eq!(copy.arch, c.event_context().arch);
    assert_eq!(copy.app_name, c.event_context().app_name);
    assert_eq!(copy.app_version, c.event_context().app_version);
    assert_eq!(copy.app_update_channel, c.event_context().app_update_channel);
    assert_eq!(copy.app_build_id, c.event_context().app_build_id);
    assert_eq!(copy.app_platform, c.event_context().app_platform);
}

#[test]
fn start_metrics_twice_returns_true_then_false() {
    let mut c = create_metrics_controller();
    assert!(c.start_metrics());
    assert!(!c.start_metrics());
}

#[test]
fn stop_on_fresh_controller_is_a_no_op() {
    let mut c = create_metrics_controller();
    c.stop_collecting();
    assert_eq!(c.worker_status(), WorkerStatus::Idle);
    // The stop was a no-op, so a later start is still honoured.
    assert!(c.start_metrics());
}

#[test]
fn stop_after_start_leaves_worker_stopped() {
    let mut c = create_metrics_controller();
    assert!(c.start_metrics());
    assert_eq!(c.worker_status(), WorkerStatus::Running);
    c.stop_collecting();
    assert_eq!(c.worker_status(), WorkerStatus::Stopped);
    // A stopped worker never restarts.
    assert!(!c.start_metrics());
    // Stopping again stays a no-op.
    c.stop_collecting();
    assert_eq!(c.worker_status(), WorkerStatus::Stopped);
}

#[test]
fn inactive_controller_refuses_to_start() {
    let mut c = MetricsController::with_active(
        false,
        "app".to_string(),
        "1.0".to_string(),
        "default".to_string(),
        "20160305".to_string(),
        "rust".to_string(),
        "en-us".to_string(),
        "linux".to_string(),
        "1.2.3".to_string(),
        "raspberry-pi".to_string(),
        "arm".to_string(),
    );
    assert!(!c.is_active());
    assert!(!c.start_metrics());
    assert_eq!(c.worker_status(), WorkerStatus::Idle);
    // In-memory accumulation is still allowed while opted out.
    assert!(c.record(0));
    assert_eq!(c.sample_total(), 1);
}

#[test]
fn record_rejects_missing_bucket() {
    let mut c = create_metrics_controller();
    assert!(!c.record(DEFAULT_BUCKET_COUNT));
    assert_eq!(c.sample_total(), 0);
    assert!(c.record(DEFAULT_BUCKET_COUNT - 1));
    assert_eq!(c.sample_total(), 1);
}

#[test]
fn snapshots_are_self_consistent() {
    let mut c = create_metrics_controller();
    assert!(c.record(0));
    assert!(c.record(0));
    assert!(c.record(3));
    assert!(c.record(7));
    let snap = c.histogram_snapshot();
    assert!(snap.check_consistent());
    let mut by_hand: u64 = 0;
    for b in 0..snap.bucket_count() {
        by_hand += snap.bucket_value(b).unwrap();
    }
    assert_eq!(by_hand, snap.total_count());
    assert_eq!(snap.total_count(), 4);
    assert_eq!(snap.bucket_value(0), Some(2));
    assert_eq!(snap.bucket_value(3), Some(1));
    assert_eq!(snap.bucket_value(7), Some(1));
    assert_eq!(snap.bucket_value(1), Some(0));
}

#[test]
fn snapshot_is_independent_of_later_records() {
    let mut c = create_metrics_controller();
    assert!(c.record(2));
    let snap = c.histogram_snapshot();
    assert!(c.record(2));
    assert_eq!(snap.bucket_value(2), Some(1));
    assert_eq!(c.bucket_value(2), Some(2));
}

#[test]
fn tick_persists_current_snapshot() {
    let mut c = create_metrics_controller();
    assert!(c.start_metrics());
    assert!(c.record(1));
    assert!(c.record(1));
    assert!(c.record(5));
    assert!(c.tick(true, false));
    // The snapshot reached durable storage; memory is retained for retry.
    assert_eq!(c.persisted_total(), Some(3));
    assert_eq!(c.sample_total(), 3);
    assert_eq!(c.worker_status(), WorkerStatus::Running);
}

#[test]
fn acknowledged_tick_clears_delivered_data() {
    let mut c = create_metrics_controller();
    assert!(c.start_metrics());
    assert!(c.record(4));
    assert!(c.record(4));
    assert!(c.tick(true, true));
    assert_eq!(c.sample_total(), 0);
    assert_eq!(c.persisted_total(), None);
    assert_eq!(c.bucket_value(4), Some(0));
}

#[test]
fn failed_persistence_abandons_tick_without_loss() {
    let mut c = create_metrics_controller();
    assert!(c.start_metrics());
    assert!(c.record(6));
    assert!(c.tick(false, false));
    assert_eq!(c.sample_total(), 1);
    assert_eq!(c.persisted_total(), None);
    assert_eq!(c.worker_status(), WorkerStatus::Running);
}

#[test]
fn ack_without_persist_changes_nothing() {
    // Transmission is only attempted after a successful write, so an
    // acknowledgment reported alongside a failed persist has no effect.
    let mut c = create_metrics_controller();
    assert!(c.start_metrics());
    assert!(c.record(3));
    assert!(c.tick(false, true));
    assert_eq!(c.sample_total(), 1);
    assert_eq!(c.persisted_total(), None);
}

#[test]
fn failing_transmissions_never_lose_persisted_data() {
    let mut c = create_metrics_controller();
    assert!(c.start_metrics());
    assert!(c.record(0));
    assert!(c.record(1));
    // Every transmission fails; the loop keeps going and the durable
    // snapshot only ever grows.
    assert!(c.tick(true, false));
    assert_eq!(c.persisted_total(), Some(2));
    assert!(c.record(2));
    assert!(c.record(3));
    assert!(c.tick(true, false));
    assert_eq!(c.persisted_total(), Some(4));
    for _ in 0..10 {
        assert!(c.tick(true, false));
        assert_eq!(c.persisted_total(), Some(4));
        assert_eq!(c.sample_total(), 4);
    }
    assert_eq!(c.worker_status(), WorkerStatus::Running);
}

#[test]
fn interleaved_records_and_ticks_persist_consistent_snapshots() {
    let mut c = create_metrics_controller();
    assert!(c.start_metrics());
    let mut expected: u64 = 0;
    for round in 0..8 {
        for b in 0..(round % 4) + 1 {
            assert!(c.record(b));
            expected += 1;
        }
        // Every persisted snapshot reflects exactly the samples recorded
        // up to this tick boundary, and is itself self-consistent.
        assert!(c.tick(true, false));
        assert_eq!(c.persisted_total(), Some(expected));
        assert!(c.histogram_snapshot().check_consistent());
    }
}

#[test]
fn no_tick_runs_while_idle_or_stopped() {
    let mut c = create_metrics_controller();
    assert!(!c.tick(true, true));
    assert!(c.start_metrics());
    c.stop_collecting();
    assert!(!c.tick(true, true));
}

#[test]
fn stop_discards_unsent_but_keeps_persisted() {
    let mut c = create_metrics_controller();
    assert!(c.start_metrics());
    assert!(c.record(0));
    assert!(c.tick(true, false));
    assert!(c.record(0));
    assert_eq!(c.sample_total(), 2);
    c.stop_collecting();
    // Samples collected since the last flush are discarded ...
    assert_eq!(c.sample_total(), 0);
    // ... while data already committed to durable storage is retained.
    assert_eq!(c.persisted_total(), Some(1));
}

#[test]
fn request_stop_winds_the_worker_down() {
    let mut c = create_metrics_controller();
    assert!(c.start_metrics());
    c.request_stop();
    assert_eq!(c.worker_status(), WorkerStatus::Stopping);
    // The in-progress tick still completes while winding down.
    assert!(c.record(2));
    assert!(c.tick(true, false));
    assert_eq!(c.persisted_total(), Some(1));
    c.stop_collecting();
    assert_eq!(c.worker_status(), WorkerStatus::Stopped);
}

#[test]
fn load_persisted_restores_prior_counts() {
    let mut prior = HistogramSet::new(DEFAULT_BUCKET_COUNT);
    assert!(prior.record(2));
    assert!(prior.record(2));
    assert!(prior.record(9));

    let mut c = create_metrics_controller();
    assert!(c.load_persisted(prior));
    assert_eq!(c.sample_total(), 3);
    assert_eq!(c.bucket_value(2), Some(2));
    assert_eq!(c.bucket_value(9), Some(1));
    assert_eq!(c.persisted_total(), Some(3));
    // Counts survive into the started service.
    assert!(c.start_metrics());
    assert_eq!(c.sample_total(), 3);
}

#[test]
fn load_persisted_refused_once_started() {
    let mut c = create_metrics_controller();
    assert!(c.start_metrics());
    let prior = HistogramSet::new(DEFAULT_BUCKET_COUNT);
    assert!(!c.load_persisted(prior));
    assert_eq!(c.sample_total(), 0);
}

#[test]
fn end_to_end_lifecycle() {
    let mut c = MetricsController::new(
        "app".to_string(),
        "1.0".to_string(),
        "default".to_string(),
        "20160305".to_string(),
        "rust".to_string(),
        "en-us".to_string(),
        "linux".to_string(),
        "1.2.3".to_string(),
        "raspberry-pi".to_string(),
        "arm".to_string(),
    );
    assert!(c.start_metrics());
    assert!(!c.start_metrics());
    c.stop_collecting();
    assert_eq!(c.worker_status(), WorkerStatus::Stopped);
}
