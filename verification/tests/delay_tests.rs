use macloop::delay::DelayHistogram;
use macloop::delay::DelayMeasurement;
use macloop::delay::DelayTracker;

#[test]
fn histogram_records_samples() {
    let mut h = DelayHistogram::new();
    h.record(500_000);
    h.record(1_500_000);
    h.record(12_000_000);

    assert_eq!(h.total_samples, 3);
    assert_eq!(h.buckets[0], 1);
    assert_eq!(h.buckets[1], 1);
    assert_eq!(h.buckets[4], 1);
}

#[test]
fn tracker_ignores_unknown_stage() {
    let mut t = DelayTracker::new();
    t.record("unknown_stage", 1_000);
    t.record("processing_time", 2_000);
    assert_eq!(t.processing_time.histogram.total_samples, 1);
    assert_eq!(t.total_pipeline.histogram.total_samples, 0);
}

#[test]
fn histogram_tracks_extremes_and_sum() {
    let mut h = DelayHistogram::new();
    h.record(2_000_000);
    h.record(6_000_000);
    assert_eq!(h.min_delay_us, 2_000);
    assert_eq!(h.max_delay_us, 6_000);
    assert_eq!(h.sum_delay_us, 8_000);
    assert_eq!(h.buckets[2], 1);
    assert_eq!(h.buckets[3], 1);
}

#[test]
fn measurement_forwards_to_histogram() {
    let mut m = DelayMeasurement::new();
    m.record_delay(150_000_000);
    assert_eq!(m.histogram.total_samples, 1);
    assert_eq!(m.histogram.buckets[7], 1);
}
