use replay_core::replay::DatasetReplayer;
use replay_core::topology::NodeTopology;

fn demo_topology() -> NodeTopology {
    let addresses = vec![
        ("grpc://127.0.0.1:9981".to_owned(), Some("grpc://127.0.0.1:9881".to_owned())),
        ("grpc://127.0.0.1:9982".to_owned(), Some("grpc://127.0.0.1:9882".to_owned())),
        ("grpc://127.0.0.1:9983".to_owned(), Some("grpc://127.0.0.1:9883".to_owned())),
        ("grpc://127.0.0.1:9984".to_owned(), Some("grpc://127.0.0.1:9884".to_owned())),
    ];
    NodeTopology::new(addresses)
}

#[test]
fn one_tick_dispatches_once_per_node_with_tagged_rows() {
    let topology = demo_topology();
    let mut replayer = DatasetReplayer::new(120000, 4, 100).unwrap();
    let busy = vec![false; 4];
    let t0: i64 = 1_700_000_000_000_000;
    let dispatches = replayer.tick(&topology, &busy, t0, 2_000_000, 12);

    assert_eq!(dispatches.len(), 4);
    for (i, d) in dispatches.iter().enumerate() {
        assert_eq!(d.node_index, i as u64);
        assert_eq!(d.primary_url, format!("grpc://127.0.0.1:998{}", i + 1));
        assert_eq!(d.comparison_url, Some(format!("grpc://127.0.0.1:988{}", i + 1)));
        // Every node replays the same relative range of its own window.
        assert_eq!(d.slice_start, i as u64 * 30000);
        assert_eq!(d.row_count, 100);
        assert_eq!(d.timestamps.len(), 100);
        assert_eq!(d.timestamps[0], t0);
        assert_eq!(d.park_id, "park_1");
        assert_eq!(d.windmill_id, format!("windmill_{}", i + 1));
        assert_eq!(d.ingested_size_bytes, 5_600);
    }
    // The cursor moved past the consumed range.
    assert_eq!(replayer.cursor.offset, 100);
}

#[test]
fn a_busy_node_is_skipped_for_the_tick() {
    let topology = demo_topology();
    let mut replayer = DatasetReplayer::new(120000, 4, 100).unwrap();
    let busy = vec![false, true, false, true];
    let dispatches = replayer.tick(&topology, &busy, 0, 2_000_000, 12);
    assert_eq!(dispatches.len(), 2);
    assert_eq!(dispatches[0].node_index, 0);
    assert_eq!(dispatches[1].node_index, 2);
    // The cursor still advances, so the busy nodes miss this range.
    assert_eq!(replayer.cursor.offset, 100);
}

#[test]
fn successive_ticks_walk_the_windows_and_wrap() {
    let topology = demo_topology();
    let mut replayer = DatasetReplayer::new(120000, 4, 100).unwrap();
    let busy = vec![false; 4];
    for tick in 0..300 {
        let dispatches = replayer.tick(&topology, &busy, 0, 2_000_000, 12);
        assert_eq!(dispatches[0].slice_start, tick * 100);
        assert_eq!(dispatches[3].slice_start, 3 * 30000 + tick * 100);
    }
    // After 300 ticks of 100 rows the 30000-row window is exhausted and the
    // cursor is back at the window start.
    assert_eq!(replayer.cursor.offset, 0);
}

#[test]
fn replayer_rejects_degenerate_partitions() {
    assert!(DatasetReplayer::new(120000, 0, 100).is_none());
    assert!(DatasetReplayer::new(120000, 4, 0).is_none());
    // A tick's read must fit in one window.
    assert!(DatasetReplayer::new(120000, 4, 30001).is_none());
    assert!(DatasetReplayer::new(120000, 4, 30000).is_some());
}
