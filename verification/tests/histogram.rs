use metrics_controller::HistogramSet;

#[test]
fn new_histogram_is_empty() {
    let h = HistogramSet::new(8);
    assert_eq!(h.bucket_count(), 8);
    assert_eq!(h.total_count(), 0);
    assert!(h.is_empty());
    for b in 0..8 {
        assert_eq!(h.bucket_value(b), Some(0));
    }
    assert_eq!(h.bucket_value(8), None);
    assert!(h.check_consistent());
}

#[test]
fn record_increments_the_right_bucket() {
    let mut h = HistogramSet::new(4);
    assert!(h.record(1));
    assert!(h.record(1));
    assert!(h.record(3));
    assert_eq!(h.bucket_value(0), Some(0));
    assert_eq!(h.bucket_value(1), Some(2));
    assert_eq!(h.bucket_value(2), Some(0));
    assert_eq!(h.bucket_value(3), Some(1));
    assert_eq!(h.total_count(), 3);
    assert!(!h.is_empty());
    assert!(h.check_consistent());
}

#[test]
fn record_rejects_out_of_range_bucket() {
    let mut h = HistogramSet::new(4);
    assert!(!h.record(4));
    assert!(!h.record(usize::MAX));
    assert_eq!(h.total_count(), 0);
}

#[test]
fn zero_bucket_histogram_accepts_nothing() {
    let mut h = HistogramSet::new(0);
    assert_eq!(h.bucket_count(), 0);
    assert!(!h.record(0));
    assert!(h.check_consistent());
}

#[test]
fn reset_empties_every_bucket() {
    let mut h = HistogramSet::new(4);
    assert!(h.record(0));
    assert!(h.record(2));
    h.reset();
    assert_eq!(h.total_count(), 0);
    assert_eq!(h.bucket_count(), 4);
    for b in 0..4 {
        assert_eq!(h.bucket_value(b), Some(0));
    }
    assert!(h.check_consistent());
}

#[test]
fn from_counts_rebuilds_a_consistent_histogram() {
    let h = HistogramSet::from_counts(vec![1, 0, 4, 2]).unwrap();
    assert_eq!(h.bucket_count(), 4);
    assert_eq!(h.total_count(), 7);
    assert_eq!(h.bucket_value(2), Some(4));
    assert!(h.check_consistent());
}

#[test]
fn from_counts_refuses_overflowing_data() {
    assert!(HistogramSet::from_counts(vec![u64::MAX, 1]).is_none());
    assert!(HistogramSet::from_counts(vec![u64::MAX, 0]).is_some());
}

#[test]
fn snapshot_copies_without_sharing() {
    let mut h = HistogramSet::new(4);
    assert!(h.record(2));
    let snap = h.snapshot();
    assert!(h.record(2));
    assert_eq!(snap.bucket_value(2), Some(1));
    assert_eq!(snap.total_count(), 1);
    assert_eq!(h.bucket_value(2), Some(2));
    assert!(snap.check_consistent());
}
