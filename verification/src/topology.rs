//! Node topology: the static, ordered list of node-pair descriptors the
//! session fans out to.

use vstd::prelude::*;

verus! {

/// One node slot: the primary engine node and, when the demo runs a
/// comparison engine beside it, the comparison node.
#[derive(Debug)]
pub struct NodePair {
    /// Position of this slot in the topology.
    pub node_index: u64,
    /// Address of the primary engine node.
    pub primary_url: String,
    /// Address of the comparison node, if one is configured.
    pub comparison_url: Option<String>,
}

/// Fixed, ordered sequence of node pairs; immutable after construction.
#[derive(Debug)]
pub struct NodeTopology {
    /// The node pairs, in slot order.
    pub nodes: Vec<NodePair>,
}

impl NodeTopology {
    /// The topology invariant: each descriptor records its own slot.
    pub open spec fn well_formed(self) -> bool {
        forall|i: int|
            0 <= i < self.nodes@.len() ==> (#[trigger] self.nodes@[i]).node_index == i
    }

    /// Number of node slots.
    pub open spec fn spec_node_count(self) -> nat {
        self.nodes@.len()
    }

    /// Builds a topology from the configured addresses, one slot per entry,
    /// in the given order.
    pub fn new(addresses: Vec<(String, Option<String>)>) -> (r: NodeTopology)
        ensures
            r.well_formed(),
            r.spec_node_count() == addresses@.len(),
            forall|i: int|
                0 <= i < addresses@.len() ==> {
                    &&& (#[trigger] r.nodes@[i]).node_index == i
                    &&& r.nodes@[i].primary_url@ == addresses@[i].0@
                    &&& (r.nodes@[i].comparison_url matches Some(u) && addresses@[i].1 matches Some(
                        a,
                    ) && u@ == a@) || (r.nodes@[i].comparison_url is None && addresses@[i].1
                        is None)
                },
    {
        let mut nodes: Vec<NodePair> = Vec::new();
        let mut k: usize = 0;
        while k < addresses.len()
            invariant
                k <= addresses@.len(),
                nodes@.len() == k,
                forall|i: int|
                    0 <= i < k as int ==> {
                        &&& (#[trigger] nodes@[i]).node_index == i
                        &&& nodes@[i].primary_url@ == addresses@[i].0@
                        &&& (nodes@[i].comparison_url matches Some(u) && addresses@[i].1
                            matches Some(a) && u@ == a@) || (nodes@[i].comparison_url is None
                            && addresses@[i].1 is None)
                    },
            decreases addresses@.len() - k,
        {
            let primary = addresses[k].0.clone();
            let comparison = match &addresses[k].1 {
                Some(url) => Some(url.clone()),
                None => None,
            };
            nodes.push(NodePair {
                node_index: k as u64,
                primary_url: primary,
                comparison_url: comparison,
            });
            k = k + 1;
        }
        NodeTopology { nodes }
    }

    /// Number of node slots.
    pub fn node_count(&self) -> (r: usize)
        ensures
            r == self.spec_node_count(),
    {
        self.nodes.len()
    }

    /// The descriptor of slot `i`.
    pub fn get(&self, i: usize) -> (r: &NodePair)
        requires
            i < self.spec_node_count(),
        ensures
            r == self.nodes@[i as int],
    {
        &self.nodes[i]
    }
}

} // verus!
