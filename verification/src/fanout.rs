//! Cluster fan-out: the per-node unit of work one tick dispatches, and the
//! ingested-size accounting that accompanies every dispatch.

use vstd::prelude::*;

use crate::cursor::ReplayCursor;
use crate::synthesis::{
    park_id, spec_park_id, spec_timestamps, spec_windmill_id, synthesize_timestamps, windmill_id,
};
use crate::topology::NodePair;
use crate::window::DatasetWindow;

verus! {

/// The named remote operations of the cluster control plane.  The shell
/// encodes each into the collaborator's wire format (for an ingest, the
/// comparison protocol's name is appended there).
#[derive(Clone, Copy, Debug, PartialEq, Eq, Structural)]
pub enum RemoteAction {
    /// Flush a node's in-memory data to its local store.
    FlushMemory,
    /// Flush a node's data through to the remote object store.
    FlushNode,
    /// Remove data that a flush left behind as deleted.
    Vacuum,
    /// Wipe a comparison node back to its initial state.
    ResetNode,
    /// Hand a comparison node one encoded batch of replayed rows.
    IngestComparisonData,
}

/// Bytes one ingested row accounts for: an 8-byte timestamp plus 4 bytes
/// for each of the `column_count` tag and field columns.
pub open spec fn spec_ingested_size(column_count: int, row_count: int) -> int {
    (8 + 4 * column_count) * row_count
}

/// The ingested-size sample emitted for one dispatch of `row_count` rows
/// with `column_count` non-timestamp columns.
pub fn ingested_size_bytes(column_count: u64, row_count: u64) -> (r: u64)
    requires
        8 + 4 * column_count <= u64::MAX,
        spec_ingested_size(column_count as int, row_count as int) <= u64::MAX,
    ensures
        r == spec_ingested_size(column_count as int, row_count as int),
{
    (8 + 4 * column_count) * row_count
}

/// Everything one node's dispatch of one tick needs: the addresses to send
/// to, the dataset slice to replay, the synthesized columns to prepend, and
/// the size sample to emit.  The shell assembles the row batch from this
/// plan and performs the remote writes; a failure of one dispatch loses
/// only this node's unit for this tick.
#[derive(Debug)]
pub struct NodeDispatch {
    /// Node slot this unit belongs to.
    pub node_index: u64,
    /// Address of the primary engine node written to.
    pub primary_url: String,
    /// Address of the comparison node, handed the same batch as an
    /// `IngestComparisonData` action, when one is configured.
    pub comparison_url: Option<String>,
    /// First dataset row of the slice to replay.
    pub slice_start: u64,
    /// Rows in the slice.
    pub row_count: u64,
    /// Synthesized timestamp column, one value per row.
    pub timestamps: Vec<i64>,
    /// Synthesized `park_id` tag, repeated for every row.
    pub park_id: String,
    /// Synthesized `windmill_id` tag, repeated for every row.
    pub windmill_id: String,
    /// Bytes this dispatch accounts for in the ingested-size sample.
    pub ingested_size_bytes: u64,
}

/// What a correctly planned dispatch of node `pair` looks like for a tick
/// that reads `cursor`'s range out of `window`, started at `start_micros`,
/// spans `duration_micros`, and replays rows of `column_count` tag and
/// field columns.
pub open spec fn dispatch_ok(
    d: NodeDispatch,
    pair: NodePair,
    window: DatasetWindow,
    cursor: ReplayCursor,
    start_micros: i64,
    duration_micros: i64,
    column_count: u64,
) -> bool {
    &&& d.node_index == pair.node_index
    &&& d.primary_url@ == pair.primary_url@
    &&& (match (d.comparison_url, pair.comparison_url) {
        (Some(u), Some(p)) => u@ == p@,
        (None, None) => true,
        _ => false,
    })
    &&& d.slice_start == window.window_start(pair.node_index as int) + cursor.offset
    &&& d.row_count == cursor.count
    &&& window.window_start(pair.node_index as int) <= d.slice_start
    &&& d.slice_start + d.row_count <= window.window_start(pair.node_index as int + 1)
    &&& d.slice_start + d.row_count <= window.total_rows
    &&& d.timestamps@ == spec_timestamps(
        start_micros as int,
        duration_micros as int,
        cursor.count as nat,
    )
    &&& d.park_id@ == spec_park_id(pair.node_index)
    &&& d.windmill_id@ == spec_windmill_id(pair.node_index)
    &&& d.ingested_size_bytes == spec_ingested_size(column_count as int, cursor.count as int)
}

/// Plans one node's dispatch for the current tick.
pub fn plan_node_dispatch(
    pair: &NodePair,
    window: &DatasetWindow,
    cursor: &ReplayCursor,
    start_micros: i64,
    duration_micros: i64,
    column_count: u64,
) -> (d: NodeDispatch)
    requires
        window.well_formed(),
        cursor.well_formed(),
        cursor.window == window.window,
        pair.node_index < window.node_count,
        cursor.count <= usize::MAX,
        cursor.count <= duration_micros,
        0 <= start_micros,
        start_micros + duration_micros <= i64::MAX,
        8 + 4 * column_count <= u64::MAX,
        spec_ingested_size(column_count as int, cursor.count as int) <= u64::MAX,
    ensures
        dispatch_ok(d, *pair, *window, *cursor, start_micros, duration_micros, column_count),
{
    let (slice_start, row_count) = window.slice_for_node(pair.node_index, cursor);
    let timestamps = synthesize_timestamps(start_micros, duration_micros, row_count as usize);
    let comparison_url = match &pair.comparison_url {
        Some(url) => Some(url.clone()),
        None => None,
    };
    NodeDispatch {
        node_index: pair.node_index,
        primary_url: pair.primary_url.clone(),
        comparison_url,
        slice_start,
        row_count,
        timestamps,
        park_id: park_id(pair.node_index),
        windmill_id: windmill_id(pair.node_index),
        ingested_size_bytes: ingested_size_bytes(column_count, row_count),
    }
}

} // verus!
