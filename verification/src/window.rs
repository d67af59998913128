//! Dataset windows: the fixed-size contiguous dataset range permanently
//! assigned to each node slot, and the slice a tick reads from it.

use vstd::arithmetic::mul::{lemma_mul_inequality, lemma_mul_is_distributive_add_other_way};
use vstd::prelude::*;

use crate::cursor::ReplayCursor;

verus! {

/// Logical partition of an immutable dataset of `total_rows` rows into
/// `node_count` contiguous, non-overlapping windows of `window` rows each,
/// in node order.  Rows past `node_count * window` are never replayed.
#[derive(Clone, Copy, Debug)]
pub struct DatasetWindow {
    /// Rows in the loaded dataset.
    pub total_rows: u64,
    /// Node slots the dataset is split across.
    pub node_count: u64,
    /// Rows in each node's window: `total_rows / node_count`.
    pub window: u64,
}

impl DatasetWindow {
    /// The partition invariant: the window is the equal share of the
    /// dataset, so all windows together fit in the dataset.
    pub open spec fn well_formed(self) -> bool {
        &&& 1 <= self.node_count
        &&& self.window == self.total_rows as int / self.node_count as int
    }

    /// First row of node `i`'s window.
    pub open spec fn window_start(self, i: int) -> int {
        i * self.window
    }

    /// Partitions `total_rows` rows across `node_count` nodes, or `None`
    /// when there are no nodes to partition across.
    pub fn partition(total_rows: u64, node_count: u64) -> (r: Option<DatasetWindow>)
        ensures
            node_count >= 1 ==> (r matches Some(w) && w == (DatasetWindow {
                total_rows,
                node_count,
                window: (total_rows as int / node_count as int) as u64,
            })),
            node_count == 0 ==> r is None,
            r matches Some(w) ==> w.well_formed(),
    {
        if node_count >= 1 {
            Some(DatasetWindow { total_rows, node_count, window: total_rows / node_count })
        } else {
            None
        }
    }

    /// All windows together fit in the dataset.
    pub proof fn lemma_windows_fit(self)
        requires
            self.well_formed(),
        ensures
            self.node_count * self.window <= self.total_rows,
    {
        let n = self.node_count as int;
        let t = self.total_rows as int;
        vstd::arithmetic::div_mod::lemma_fundamental_div_mod(t, n);
        vstd::arithmetic::div_mod::lemma_mod_bound(t, n);
    }

    /// The absolute dataset range a tick reads for node `node_index`: the
    /// cursor's relative range `[offset, offset + count)` placed inside the
    /// node's window.  The returned range lies inside that window, and so
    /// inside the dataset; ranges of distinct nodes can never overlap.
    pub fn slice_for_node(&self, node_index: u64, cursor: &ReplayCursor) -> (r: (u64, u64))
        requires
            self.well_formed(),
            cursor.well_formed(),
            cursor.window == self.window,
            node_index < self.node_count,
        ensures
            r.0 == self.window_start(node_index as int) + cursor.offset,
            r.1 == cursor.count,
            self.window_start(node_index as int) <= r.0,
            r.0 + r.1 <= self.window_start(node_index as int + 1),
            r.0 + r.1 <= self.total_rows,
    {
        proof {
            self.lemma_slice_bounds(node_index as int);
        }
        (node_index * self.window + cursor.offset, cursor.count)
    }

    /// Window `i + 1` starts exactly one window past window `i`, and even
    /// the last window ends inside the dataset.
    pub proof fn lemma_slice_bounds(self, i: int)
        requires
            self.well_formed(),
            0 <= i < self.node_count,
        ensures
            self.window_start(i + 1) == self.window_start(i) + self.window,
            self.window_start(i + 1) <= self.node_count * self.window,
            self.node_count * self.window <= self.total_rows,
            self.window_start(i) >= 0,
    {
        let w = self.window as int;
        lemma_mul_is_distributive_add_other_way(w, i, 1);
        lemma_mul_inequality(i + 1, self.node_count as int, w);
        self.lemma_windows_fit();
        vstd::arithmetic::mul::lemma_mul_nonnegative(i, w);
    }
}

/// The windows of distinct nodes never overlap: everything node `i` ever
/// replays lies before everything node `j` replays when `i < j`, whatever
/// the cursor holds at either tick.
pub proof fn lemma_node_ranges_disjoint(
    w: DatasetWindow,
    ci: ReplayCursor,
    cj: ReplayCursor,
    i: int,
    j: int,
)
    requires
        w.well_formed(),
        ci.well_formed(),
        cj.well_formed(),
        ci.window == w.window,
        cj.window == w.window,
        0 <= i < j < w.node_count,
    ensures
        w.window_start(i) + ci.offset + ci.count <= w.window_start(j) + cj.offset,
{
    w.lemma_slice_bounds(i);
    lemma_mul_inequality(i + 1, j, w.window as int);
    vstd::arithmetic::mul::lemma_mul_nonnegative(j, w.window as int);
}

/// Every tick's slice for node `i` stays inside node `i`'s window: with
/// window size `W`, the absolute range `[start, start + count)` a tick reads
/// satisfies `i*W <= start < start + count <= (i+1)*W` — the cursor offset
/// is reset to 0 by a wraparound rather than ever leaving the window.
pub proof fn lemma_slice_in_node_window(w: DatasetWindow, cursor: ReplayCursor, i: int)
    requires
        w.well_formed(),
        cursor.well_formed(),
        cursor.window == w.window,
        0 <= i < w.node_count,
    ensures
        w.window_start(i) <= w.window_start(i) + cursor.offset,
        w.window_start(i) + cursor.offset < w.window_start(i) + cursor.offset + cursor.count,
        w.window_start(i) + cursor.offset + cursor.count <= w.window_start(i + 1),
        w.window_start(i + 1) <= w.total_rows,
{
    w.lemma_slice_bounds(i);
}

} // verus!
