//! Telemetry shaping: turning the container runtime's volume usage report
//! and the object store's listing into the size samples the UI shows.

use vstd::prelude::*;

verus! {

/// One volume of the container runtime's usage report, as the shell hands
/// it over: the volume's name as bytes and its size.
#[derive(Debug)]
pub struct VolumeUsage {
    /// The volume's name.
    pub name: Vec<u8>,
    /// Bytes the volume uses.
    pub size_bytes: u64,
}

/// One per-node size sample: the node's name (the volume name with the
/// cluster namespace prefix stripped) and the volume's size.
#[derive(Debug)]
pub struct NodeSizeSample {
    /// The node's name.
    pub node_name: Vec<u8>,
    /// Bytes the node's volume uses.
    pub size_bytes: u64,
}

/// A point-in-time measurement of one backend's table in the remote object
/// store.
#[derive(Debug)]
pub struct TableSizeSample {
    /// Which backend the table belongs to.
    pub backend_label: String,
    /// Total bytes of the table's files, saturated at `u64::MAX`.
    pub size_bytes: u64,
}

/// Whether `name` begins with `prefix`.
pub open spec fn has_prefix(name: Seq<u8>, prefix: Seq<u8>) -> bool {
    &&& prefix.len() <= name.len()
    &&& name.subrange(0, prefix.len() as int) == prefix
}

/// The samples a usage report yields: one per volume whose name carries the
/// cluster namespace prefix, in report order, each named by what follows
/// the prefix.
pub open spec fn spec_node_samples(volumes: Seq<(Seq<u8>, u64)>, prefix: Seq<u8>) -> Seq<
    (Seq<u8>, u64),
>
    decreases volumes.len(),
{
    if volumes.len() == 0 {
        Seq::empty()
    } else {
        spec_node_samples(volumes.drop_last(), prefix) + if has_prefix(
            volumes.last().0,
            prefix,
        ) {
            seq![(volumes.last().0.skip(prefix.len() as int), volumes.last().1)]
        } else {
            Seq::empty()
        }
    }
}

/// The name/size pairs of a usage report, in report order.
pub open spec fn volumes_view(volumes: Seq<VolumeUsage>) -> Seq<(Seq<u8>, u64)> {
    volumes.map(|_i: int, v: VolumeUsage| (v.name@, v.size_bytes))
}

/// Whether `name` begins with `prefix`.
pub fn starts_with_bytes(name: &Vec<u8>, prefix: &Vec<u8>) -> (r: bool)
    ensures
        r == has_prefix(name@, prefix@),
{
    if prefix.len() > name.len() {
        return false;
    }
    let mut k: usize = 0;
    while k < prefix.len()
        invariant
            prefix@.len() <= name@.len(),
            k <= prefix@.len(),
            forall|j: int| 0 <= j < k ==> name@[j] == prefix@[j],
        decreases prefix@.len() - k,
    {
        if name[k] != prefix[k] {
            return false;
        }
        k = k + 1;
    }
    proof {
        assert(name@.subrange(0, prefix@.len() as int) =~= prefix@);
    }
    true
}

/// Filters a usage report down to the volumes of the cluster namespace and
/// strips the namespace prefix off their names.
pub fn filter_volumes(volumes: &Vec<VolumeUsage>, prefix: &Vec<u8>) -> (r: Vec<NodeSizeSample>)
    ensures
        r@.len() == spec_node_samples(volumes_view(volumes@), prefix@).len(),
        forall|k: int|
            0 <= k < r@.len() ==> {
                let s = spec_node_samples(volumes_view(volumes@), prefix@)[k];
                &&& (#[trigger] r@[k]).node_name@ == s.0
                &&& r@[k].size_bytes == s.1
            },
{
    let mut r: Vec<NodeSizeSample> = Vec::new();
    let mut i: usize = 0;
    while i < volumes.len()
        invariant
            i <= volumes@.len(),
            r@.len() == spec_node_samples(
                volumes_view(volumes@.subrange(0, i as int)),
                prefix@,
            ).len(),
            forall|k: int|
                0 <= k < r@.len() ==> {
                    let s = spec_node_samples(volumes_view(volumes@.subrange(0, i as int)), prefix@)[k];
                    &&& (#[trigger] r@[k]).node_name@ == s.0
                    &&& r@[k].size_bytes == s.1
                },
        decreases volumes@.len() - i,
    {
        let v = &volumes[i];
        if starts_with_bytes(&v.name, prefix) {
            let mut node_name: Vec<u8> = Vec::new();
            let mut k: usize = prefix.len();
            while k < v.name.len()
                invariant
                    prefix@.len() <= k <= v.name@.len(),
                    node_name@ =~= v.name@.subrange(prefix@.len() as int, k as int),
                decreases v.name@.len() - k,
            {
                node_name.push(v.name[k]);
                k = k + 1;
            }
            proof {
                assert(node_name@ =~= v.name@.skip(prefix@.len() as int));
            }
            r.push(NodeSizeSample { node_name, size_bytes: v.size_bytes });
        }
        proof {
            let pre = volumes_view(volumes@.subrange(0, i as int));
            let ext = volumes_view(volumes@.subrange(0, i as int + 1));
            assert(ext.drop_last() =~= pre);
            assert(ext.last() == (volumes@[i as int].name@, volumes@[i as int].size_bytes));
        }
        i = i + 1;
    }
    proof {
        assert(volumes@.subrange(0, volumes@.len() as int) =~= volumes@);
    }
    r
}

/// The total of a listing's entry sizes.
pub open spec fn spec_size_sum(sizes: Seq<u64>) -> int
    decreases sizes.len(),
{
    if sizes.len() == 0 {
        0
    } else {
        spec_size_sum(sizes.drop_last()) + sizes.last()
    }
}

/// Sums the entry sizes of an object-store listing, saturating at
/// `u64::MAX`.
pub fn total_size(sizes: &Vec<u64>) -> (r: u64)
    ensures
        spec_size_sum(sizes@) <= u64::MAX ==> r == spec_size_sum(sizes@),
        spec_size_sum(sizes@) > u64::MAX ==> r == u64::MAX,
{
    let mut total: u64 = 0;
    let mut i: usize = 0;
    while i < sizes.len()
        invariant
            i <= sizes@.len(),
            spec_size_sum(sizes@.subrange(0, i as int)) <= u64::MAX ==> total == spec_size_sum(
                sizes@.subrange(0, i as int),
            ),
            spec_size_sum(sizes@.subrange(0, i as int)) > u64::MAX ==> total == u64::MAX,
        decreases sizes@.len() - i,
    {
        proof {
            let pre = sizes@.subrange(0, i as int);
            let ext = sizes@.subrange(0, i as int + 1);
            assert(ext.drop_last() =~= pre);
            assert(ext.last() == sizes@[i as int]);
        }
        if total > u64::MAX - sizes[i] {
            total = u64::MAX;
        } else {
            total = total + sizes[i];
        }
        i = i + 1;
    }
    proof {
        assert(sizes@.subrange(0, sizes@.len() as int) =~= sizes@);
    }
    total
}

/// Builds the table-size sample for one backend from the sizes its listing
/// returned.
pub fn table_size_sample(backend_label: String, sizes: &Vec<u64>) -> (r: TableSizeSample)
    ensures
        r.backend_label@ == backend_label@,
        spec_size_sum(sizes@) <= u64::MAX ==> r.size_bytes == spec_size_sum(sizes@),
        spec_size_sum(sizes@) > u64::MAX ==> r.size_bytes == u64::MAX,
{
    let size_bytes = total_size(sizes);
    TableSizeSample { backend_label, size_bytes }
}

} // verus!
