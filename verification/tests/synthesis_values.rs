use replay_core::fanout::ingested_size_bytes;
use replay_core::synthesis::{decimal_string, park_id, synthesize_timestamps, windmill_id};

#[test]
fn timestamps_start_at_the_tick_and_spread_over_the_span() {
    let t0: i64 = 1_000_000;
    let duration: i64 = 2_000_000;
    let timestamps = synthesize_timestamps(t0, duration, 100);
    assert_eq!(timestamps.len(), 100);
    assert_eq!(timestamps[0], t0);
    // The step is duration / rows = 20000 microseconds.
    assert_eq!(timestamps[1], t0 + 20_000);
    assert_eq!(timestamps[99], t0 + 99 * 20_000);
    assert!(timestamps[99] <= t0 + duration);
    for k in 1..100 {
        assert!(timestamps[k - 1] < timestamps[k]);
    }
}

#[test]
fn a_single_row_gets_the_tick_start_time() {
    let timestamps = synthesize_timestamps(7_777, 2_000_000, 1);
    assert_eq!(timestamps, vec![7_777]);
}

#[test]
fn timestamps_round_the_step_down() {
    // 1000 / 3 = 333, so three rows land at 0, 333 and 666.
    let timestamps = synthesize_timestamps(0, 1000, 3);
    assert_eq!(timestamps, vec![0, 333, 666]);
}

#[test]
fn tags_of_an_early_node_slot() {
    assert_eq!(park_id(3), "park_1");
    assert_eq!(windmill_id(3), "windmill_4");
}

#[test]
fn tags_of_a_late_node_slot() {
    assert_eq!(park_id(7), "park_2");
    assert_eq!(windmill_id(7), "windmill_8");
}

#[test]
fn the_park_boundary_lies_between_slots_4_and_5() {
    assert_eq!(park_id(4), "park_1");
    assert_eq!(park_id(5), "park_2");
}

#[test]
fn decimal_rendering_handles_multiple_digits() {
    assert_eq!(decimal_string(0), "0");
    assert_eq!(decimal_string(9), "9");
    assert_eq!(decimal_string(10), "10");
    assert_eq!(decimal_string(30000), "30000");
    assert_eq!(decimal_string(u64::MAX), "18446744073709551615");
}

#[test]
fn ingested_size_counts_56_bytes_per_row_for_12_columns() {
    // One 8-byte timestamp and twelve 4-byte tag/field columns per row.
    assert_eq!(ingested_size_bytes(12, 100), 5_600);
    assert_eq!(ingested_size_bytes(12, 1), 56);
    assert_eq!(ingested_size_bytes(12, 30000), 56 * 30000);
}

#[test]
fn ingested_size_follows_the_formula_for_other_schemas() {
    assert_eq!(ingested_size_bytes(0, 10), 80);
    assert_eq!(ingested_size_bytes(2, 5), 80);
}
