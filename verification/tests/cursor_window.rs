use replay_core::cursor::ReplayCursor;
use replay_core::window::DatasetWindow;

#[test]
fn cursor_wraps_back_to_zero_after_300_ticks() {
    let mut cursor = ReplayCursor::new(100, 30000).unwrap();
    assert_eq!(cursor.offset, 0);
    for _ in 0..299 {
        cursor.advance();
    }
    assert_eq!(cursor.offset, 29900);
    cursor.advance();
    assert_eq!(cursor.offset, 0);
}

#[test]
fn cursor_advances_by_count_until_the_window_edge() {
    let mut cursor = ReplayCursor::new(4, 10).unwrap();
    cursor.advance();
    assert_eq!(cursor.offset, 4);
    // A further full read would run past row 10, so the offset resets.
    cursor.advance();
    assert_eq!(cursor.offset, 0);
}

#[test]
fn cursor_rejects_impossible_counts() {
    assert!(ReplayCursor::new(0, 30000).is_none());
    assert!(ReplayCursor::new(30001, 30000).is_none());
    assert!(ReplayCursor::new(30000, 30000).is_some());
}

#[test]
fn partition_splits_the_dataset_evenly() {
    let window = DatasetWindow::partition(120000, 4).unwrap();
    assert_eq!(window.window, 30000);
    assert_eq!(window.node_count, 4);
    assert_eq!(window.total_rows, 120000);
}

#[test]
fn partition_needs_at_least_one_node() {
    assert!(DatasetWindow::partition(120000, 0).is_none());
}

#[test]
fn slices_stay_inside_each_nodes_window() {
    let window = DatasetWindow::partition(120000, 4).unwrap();
    let mut cursor = ReplayCursor::new(100, 30000).unwrap();
    cursor.advance();
    cursor.advance();
    assert_eq!(cursor.offset, 200);
    for i in 0..4u64 {
        let (start, len) = window.slice_for_node(i, &cursor);
        assert_eq!(start, i * 30000 + 200);
        assert_eq!(len, 100);
        assert!(i * 30000 <= start);
        assert!(start + len <= (i + 1) * 30000);
    }
}
