use sampler::{Observations, ObservationSet, Sample, WINDOW_SIZE};

#[test]
fn test_wraps_are_reported() {
    let observations = Observations::new("test");

    for i in 0..WINDOW_SIZE {
        observations.record(i as i64);
    }

    observations.record(500);
    observations.record(501);
    observations.record(502);
    observations.record(503);

    let sample = observations.sample();

    // `dropped` counts the number of samples that didn't make it to the underlying ring
    // buffer, but excessive samples are not dropped! overflows start writing over the start of
    // the buffer, and increment `wraps`.
    assert_eq!(sample.dropped, 0);
    assert_eq!(sample.wraps, 1);

    // sample again to confirm that defaults are zero and that wraps have not occurred since
    // the last sample.
    let sample = observations.sample();

    assert_eq!(
        sample,
        Sample {
            dropped: 0,
            wraps: 0,
            p25: 0,
            p50: 0,
            p75: 0,
            p90: 0,
            p95: 0,
            p99: 0,
            p99p9: 0,
            max: 0,
            count: 0,
        }
    );
}

#[test]
fn test_percentiles_are_reported() {
    let data = [
             1,  2,  3,  4,  5,  6,  7,  8,  9,
        10, 11, 12, 13, 14, 15, 16, 17, 18, 19,
        20, 21, 22, 23, 24, 25, 26, 27, 28, 29,
        30, 31, 32, 33, 34, 35, 36, 37, 38, 39,
        40, 41, 42, 43, 44, 45, 46, 47, 48, 49,
        50, 51, 52, 53, 54, 55, 56, 57, 58, 59,
        60, 61, 62, 63, 64, 65, 66, 67, 68, 69,
        70, 71, 72, 73, 74, 75, 76, 77, 78, 79,
        80, 81, 82, 83, 84, 85, 86, 87, 88, 89,
        90, 91, 92, 93, 94, 95, 96, 97, 98, 99,
    ];

    let observations = Observations::new("test");

    for datum in data.iter().cloned() {
        observations.record(datum);
    }

    let sample = observations.sample();

    assert_eq!(
        sample,
        Sample {
            dropped: 0,
            wraps: 0,
            p25: 25,
            p50: 50,
            p75: 75,
            p90: 90,
            p95: 95,
            p99: 99,
            p99p9: 99,
            max: 99,
            count: 99,
        }
    );
}

#[test]
fn test_small_sampleset() {
    let observations = Observations::new("test");

    observations.record(500);
    observations.record(501);
    observations.record(502);
    observations.record(503);
    observations.record(504);

    let sample = observations.sample();

    assert_eq!(
        sample,
        Sample {
            dropped: 0,
            wraps: 0,
            p25: 501,
            p50: 502,
            p75: 503,
            p90: 504,
            p95: 504,
            p99: 504,
            p99p9: 504,
            max: 504,
            count: 5,
        }
    );
}

#[test]
fn test_overflow_wraps_writes() {
    let observations = Observations::new("test");

    for _ in 0..WINDOW_SIZE {
        observations.record(1);
    }

    // at this point, we've wrapped the window, and start overwriting `1` samples.
    for _ in 0..(WINDOW_SIZE / 2) {
        observations.record(2);
    }

    for _ in 0..(WINDOW_SIZE / 10) {
        observations.record(3);
    }

    let sample = observations.sample();

    assert_eq!(
        sample,
        Sample {
            dropped: 0,
            wraps: 1,
            p25: 2,
            p50: 2,
            p75: 2,
            p90: 3,
            p95: 3,
            p99: 3,
            p99p9: 3,
            max: 3,
            count: WINDOW_SIZE / 2 + WINDOW_SIZE / 10,
        }
    );
}

#[test]
fn eight_values_single_interval() {
    // Recording exactly as many values as the capacity would lap the cursor
    // and leave nothing before it to drain, so the window is kept larger than
    // the run.
    let observations = Observations::with_capacity("test", 16);

    for v in 1..=8 {
        observations.record(v);
    }

    let sample = observations.sample();

    assert_eq!(
        sample,
        Sample {
            dropped: 0,
            wraps: 0,
            p25: 3,
            p50: 5,
            p75: 7,
            p90: 8,
            p95: 8,
            p99: 8,
            p99p9: 8,
            max: 8,
            count: 8,
        }
    );
}

#[test]
fn ten_values_wrap_once() {
    let observations = Observations::with_capacity("test", 8);

    for v in 1..=10 {
        observations.record(v);
    }

    // The ninth and tenth observations overwrote the window's first two
    // slots, so only the new lap's prefix [9, 10] is drained.
    let sample = observations.sample();

    assert_eq!(
        sample,
        Sample {
            dropped: 0,
            wraps: 1,
            p25: 9,
            p50: 10,
            p75: 10,
            p90: 10,
            p95: 10,
            p99: 10,
            p99p9: 10,
            max: 10,
            count: 2,
        }
    );
}

#[test]
fn untouched_recorder_samples_all_zero() {
    let observations = Observations::new("test");

    let sample = observations.sample();

    assert_eq!(
        sample,
        Sample {
            dropped: 0,
            wraps: 0,
            p25: 0,
            p50: 0,
            p75: 0,
            p90: 0,
            p95: 0,
            p99: 0,
            p99p9: 0,
            max: 0,
            count: 0,
        }
    );
}

#[test]
fn repeated_samples_stay_all_zero() {
    let observations = Observations::with_capacity("test", 16);

    observations.record(42);
    let first = observations.sample();
    assert_eq!(first.count, 1);
    assert_eq!(first.max, 42);

    // Without intervening records, every further sample is the same all-zero
    // summary: the cleared state is stable.
    let second = observations.sample();
    let third = observations.sample();
    assert_eq!(second, third);
    assert_eq!(second.count, 0);
    assert_eq!(second.wraps, 0);
    assert_eq!(second.dropped, 0);
    assert_eq!(second.p50, 0);
    assert_eq!(second.max, 0);
}

#[test]
fn unsorted_records_are_drained_in_order() {
    let observations = Observations::with_capacity("test", 8);

    for v in [5, 1, 4, 2, 3] {
        observations.record(v);
    }

    let sample = observations.sample();

    // Percentiles index into the sorted drain, not into arrival order.
    assert_eq!(sample.p25, 2);
    assert_eq!(sample.p50, 3);
    assert_eq!(sample.p75, 4);
    assert_eq!(sample.p90, 5);
    assert_eq!(sample.max, 5);
    assert_eq!(sample.count, 5);
}

#[test]
fn negative_values_are_ordered_too() {
    let observations = Observations::with_capacity("test", 8);

    for v in [0, -7, 3, -2] {
        observations.record(v);
    }

    let sample = observations.sample();

    assert_eq!(sample.p25, -2);
    assert_eq!(sample.p50, 0);
    assert_eq!(sample.max, 3);
    assert_eq!(sample.count, 4);
}

#[test]
fn recorder_reports_its_name() {
    let observations = Observations::new("query_latency");
    assert_eq!(observations.name(), "query_latency");
}

#[test]
fn sample_accessors_match_fields() {
    let observations = Observations::with_capacity("test", 8);
    for v in 1..=10 {
        observations.record(v);
    }
    let sample = observations.sample();
    assert_eq!(sample.dropped(), 0);
    assert_eq!(sample.wraps(), 1);
}

#[test]
fn observation_set_tracks_cursor_and_laps() {
    let mut set = ObservationSet::with_capacity(4);
    assert_eq!(set.size(), 0);
    assert_eq!(set.wraps(), 0);

    set.add(9);
    set.add(7);
    set.add(8);
    assert_eq!(set.size(), 3);
    assert_eq!(set.sorted_data(), vec![7, 8, 9]);

    set.add(6);
    // The cursor lapped the window: the set now counts as full.
    assert_eq!(set.wraps(), 1);
    assert_eq!(set.size(), 4);
    // ... but the drain only sees the slots before the cursor.
    assert_eq!(set.sorted_data(), Vec::<i64>::new());

    set.add(5);
    assert_eq!(set.sorted_data(), vec![5]);

    set.clear();
    assert_eq!(set.size(), 0);
    assert_eq!(set.wraps(), 0);
    assert_eq!(set.sorted_data(), Vec::<i64>::new());
}

#[test]
fn default_window_size_is_used() {
    let mut set = ObservationSet::new();
    for _ in 0..WINDOW_SIZE {
        set.add(1);
    }
    assert_eq!(set.wraps(), 1);
    assert_eq!(set.size(), WINDOW_SIZE);
}
