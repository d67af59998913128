//! Dataset replayer: one periodic ingestion job, tying the dataset windows,
//! the replay cursor and the cluster fan-out together tick by tick.

use vstd::prelude::*;

use crate::cursor::ReplayCursor;
use crate::fanout::{dispatch_ok, plan_node_dispatch, spec_ingested_size, NodeDispatch};
use crate::topology::NodeTopology;
use crate::window::DatasetWindow;

verus! {

/// The node slots a tick may dispatch to, in slot order: every slot whose
/// previous dispatch is no longer in flight.  Keeping at most one dispatch
/// in flight per node bounds the work a slow backend can pile up.
pub open spec fn free_slots(busy: Seq<bool>) -> Seq<int>
    decreases busy.len(),
{
    if busy.len() == 0 {
        Seq::empty()
    } else {
        free_slots(busy.drop_last()) + if !busy.last() {
            seq![(busy.len() - 1) as int]
        } else {
            Seq::empty()
        }
    }
}

/// Every entry of `free_slots` is a valid slot, and the entries are listed
/// in increasing slot order.
pub proof fn lemma_free_slots_bounds(busy: Seq<bool>)
    ensures
        forall|k: int|
            0 <= k < free_slots(busy).len() ==> 0 <= #[trigger] free_slots(busy)[k] < busy.len(),
        forall|k1: int, k2: int|
            0 <= k1 < k2 < free_slots(busy).len() ==> #[trigger] free_slots(busy)[k1]
                < #[trigger] free_slots(busy)[k2],
    decreases busy.len(),
{
    if busy.len() > 0 {
        let prefix = free_slots(busy.drop_last());
        lemma_free_slots_bounds(busy.drop_last());
        assert forall|k: int|
            0 <= k < free_slots(busy).len() implies 0 <= #[trigger] free_slots(busy)[k]
            < busy.len() by {
            if k < prefix.len() {
                assert(free_slots(busy)[k] == prefix[k]);
            }
        }
        assert forall|k1: int, k2: int|
            0 <= k1 < k2 < free_slots(busy).len() implies #[trigger] free_slots(busy)[k1]
            < #[trigger] free_slots(busy)[k2] by {
            if k2 < prefix.len() {
                assert(free_slots(busy)[k1] == prefix[k1]);
                assert(free_slots(busy)[k2] == prefix[k2]);
            } else {
                assert(free_slots(busy)[k1] == prefix[k1]);
                assert(free_slots(busy)[k2] == busy.len() - 1);
            }
        }
    }
}

/// A slot appears in `free_slots` exactly when it is free.
pub proof fn lemma_free_slots_complete(busy: Seq<bool>, i: int)
    requires
        0 <= i < busy.len(),
    ensures
        !busy[i] <==> free_slots(busy).contains(i),
    decreases busy.len(),
{
    lemma_free_slots_bounds(busy);
    if i == busy.len() - 1 {
        if !busy[i] {
            assert(free_slots(busy).last() == i);
        } else {
            assert(free_slots(busy) == free_slots(busy.drop_last()));
            lemma_free_slots_bounds(busy.drop_last());
            if free_slots(busy).contains(i) {
                let k = choose|k: int|
                    0 <= k < free_slots(busy).len() && free_slots(busy)[k] == i;
                assert(free_slots(busy.drop_last())[k] < busy.len() - 1);
            }
        }
    } else {
        lemma_free_slots_complete(busy.drop_last(), i);
        if !busy[i] {
            let k = choose|k: int|
                0 <= k < free_slots(busy.drop_last()).len() && free_slots(busy.drop_last())[k]
                    == i;
            assert(free_slots(busy)[k] == i);
        } else {
            if free_slots(busy).contains(i) {
                let k = choose|k: int|
                    0 <= k < free_slots(busy).len() && free_slots(busy)[k] == i;
                if k < free_slots(busy.drop_last()).len() {
                    assert(free_slots(busy.drop_last())[k] == i);
                } else {
                    assert(free_slots(busy)[k] == busy.len() - 1);
                }
            }
        }
    }
}

/// With no dispatch in flight anywhere, nothing is skipped: a tick plans
/// one dispatch for every node slot, the `k`-th for slot `k` — so a tick
/// over `n` free nodes yields exactly `n` dispatches, in slot order.
pub proof fn lemma_free_slots_all_free(busy: Seq<bool>)
    requires
        forall|i: int| 0 <= i < busy.len() ==> !busy[i],
    ensures
        free_slots(busy) =~= Seq::new(busy.len(), |i: int| i),
    decreases busy.len(),
{
    if busy.len() > 0 {
        lemma_free_slots_all_free(busy.drop_last());
    }
}

/// Periodic ingestion job state: the partitioned dataset and the shared
/// cursor its ticks advance.
#[derive(Clone, Copy, Debug)]
pub struct DatasetReplayer {
    /// The dataset partition, fixed for the session.
    pub window: DatasetWindow,
    /// The offset the next tick reads at, shared across all node slots.
    pub cursor: ReplayCursor,
}

impl DatasetReplayer {
    /// Replayer invariant: the cursor ranges over exactly one window.
    pub open spec fn well_formed(self) -> bool {
        &&& self.window.well_formed()
        &&& self.cursor.well_formed()
        &&& self.cursor.window == self.window.window
    }

    /// Sets up a replay of `total_rows` dataset rows across `node_count`
    /// nodes, `count` rows per node per tick, or `None` when the partition
    /// leaves no room for a full tick (no nodes, a zero count, or windows
    /// smaller than one tick's read).
    pub fn new(total_rows: u64, node_count: u64, count: u64) -> (r: Option<DatasetReplayer>)
        ensures
            r matches Some(rep) ==> {
                &&& rep.well_formed()
                &&& rep.window.total_rows == total_rows
                &&& rep.window.node_count == node_count
                &&& rep.cursor.count == count
                &&& rep.cursor.offset == 0
            },
            r is Some <==> node_count >= 1 && 1 <= count && count
                <= total_rows as int / node_count as int,
    {
        match DatasetWindow::partition(total_rows, node_count) {
            Some(window) => match ReplayCursor::new(count, window.window) {
                Some(cursor) => Some(DatasetReplayer { window, cursor }),
                None => None,
            },
            None => None,
        }
    }

    /// Plans one tick: one dispatch for every node slot whose previous
    /// dispatch has finished (`busy` holds the in-flight state per slot),
    /// in slot order, each carrying the same dataset range relative to its
    /// own window and the same synthesized columns; then advances the
    /// cursor past the consumed range.  Slots still busy are skipped this
    /// tick; the cursor advances regardless, so a skipped slot misses this
    /// tick's range rather than delaying every other slot.
    pub fn tick(
        &mut self,
        topology: &NodeTopology,
        busy: &Vec<bool>,
        start_micros: i64,
        duration_micros: i64,
        column_count: u64,
    ) -> (dispatches: Vec<NodeDispatch>)
        requires
            old(self).well_formed(),
            topology.well_formed(),
            topology.spec_node_count() == old(self).window.node_count,
            busy@.len() == old(self).window.node_count,
            old(self).cursor.count <= usize::MAX,
            old(self).cursor.count <= duration_micros,
            0 <= start_micros,
            start_micros + duration_micros <= i64::MAX,
            8 + 4 * column_count <= u64::MAX,
            spec_ingested_size(column_count as int, old(self).cursor.count as int) <= u64::MAX,
        ensures
            final(self).well_formed(),
            final(self).window == old(self).window,
            final(self).cursor.count == old(self).cursor.count,
            final(self).cursor.window == old(self).cursor.window,
            final(self).cursor.offset == old(self).cursor.next_offset(),
            dispatches@.len() == free_slots(busy@).len(),
            forall|k: int|
                0 <= k < dispatches@.len() ==> {
                    let i = free_slots(busy@)[k];
                    &&& (#[trigger] dispatches@[k]).node_index == i
                    &&& dispatch_ok(
                        dispatches@[k],
                        topology.nodes@[i],
                        old(self).window,
                        old(self).cursor,
                        start_micros,
                        duration_micros,
                        column_count,
                    )
                },
    {
        let ghost window0 = self.window;
        let ghost cursor0 = self.cursor;
        let node_count = topology.node_count();
        let mut dispatches: Vec<NodeDispatch> = Vec::new();
        let mut i: usize = 0;
        while i < node_count
            invariant
                self.window == window0,
                self.cursor == cursor0,
                window0.well_formed(),
                cursor0.well_formed(),
                cursor0.window == window0.window,
                topology.well_formed(),
                topology.spec_node_count() == window0.node_count,
                busy@.len() == window0.node_count,
                node_count == window0.node_count,
                i <= node_count,
                cursor0.count <= usize::MAX,
                cursor0.count <= duration_micros,
                0 <= start_micros,
                start_micros + duration_micros <= i64::MAX,
                8 + 4 * column_count <= u64::MAX,
                spec_ingested_size(column_count as int, cursor0.count as int) <= u64::MAX,
                dispatches@.len() == free_slots(busy@.subrange(0, i as int)).len(),
                forall|k: int|
                    0 <= k < dispatches@.len() ==> {
                        let s = free_slots(busy@.subrange(0, i as int))[k];
                        &&& (#[trigger] dispatches@[k]).node_index == s
                        &&& dispatch_ok(
                            dispatches@[k],
                            topology.nodes@[s],
                            window0,
                            cursor0,
                            start_micros,
                            duration_micros,
                            column_count,
                        )
                    },
            decreases node_count - i,
        {
            let ghost prefix = busy@.subrange(0, i as int);
            proof {
                lemma_free_slots_bounds(prefix);
            }
            if !busy[i] {
                let pair = topology.get(i);
                let d = plan_node_dispatch(
                    pair,
                    &self.window,
                    &self.cursor,
                    start_micros,
                    duration_micros,
                    column_count,
                );
                dispatches.push(d);
            }
            proof {
                let extended = busy@.subrange(0, i as int + 1);
                assert(extended.drop_last() =~= prefix);
                assert(extended.last() == busy@[i as int]);
                lemma_free_slots_bounds(extended);
            }
            i = i + 1;
        }
        proof {
            assert(busy@.subrange(0, busy@.len() as int) =~= busy@);
        }
        self.cursor.advance();
        dispatches
    }
}

} // verus!
