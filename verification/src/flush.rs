//! Flush scheduling: the periodic, staggered per-node flush/vacuum cycles
//! and the exact steps each node's flush performs.

use vstd::arithmetic::div_mod::{lemma_fundamental_div_mod, lemma_mod_bound};
use vstd::arithmetic::mul::lemma_mul_inequality;
use vstd::prelude::*;

use crate::fanout::RemoteAction;

verus! {

/// How much one cycle flushes.
#[derive(Clone, Copy, Debug, PartialEq, Eq, Structural)]
pub enum FlushKind {
    /// Flush through to the remote object store, then measure it.
    Full,
    /// Flush in-memory data only; nothing is polled afterwards.
    MemoryOnly,
}

/// One step of a node's flush, performed in order by the shell.
#[derive(Clone, Copy, Debug, PartialEq, Eq, Structural)]
pub enum FlushStep {
    /// Issue a named remote operation to the node.
    Act(RemoteAction),
    /// Tell the event sink the node is flushing.
    EmitFlushNotice,
    /// Measure the table in the remote object store and emit the sample.
    PollTableSize,
}

/// Configuration of one flush job.
#[derive(Clone, Copy, Debug)]
pub struct FlushProfile {
    /// Seconds between the starts of two cycles.
    pub interval_seconds: u64,
    /// Every how many cycles a full flush is issued; the cycles in between
    /// are memory-only.  `1` makes every cycle full.
    pub full_every: u64,
    /// Whether a full flush vacuums the node before measuring it.
    pub vacuum_on_full: bool,
}

impl FlushProfile {
    /// Profile invariant: the full-flush period is a period.
    pub open spec fn well_formed(self) -> bool {
        1 <= self.full_every
    }
}

/// What one cycle asks of one node: which flush to run and how long after
/// the cycle's start to dispatch it.
#[derive(Clone, Copy, Debug, PartialEq, Eq, Structural)]
pub struct FlushDispatch {
    /// Node slot the flush goes to.
    pub node_index: u64,
    /// How much this cycle flushes on this node.
    pub kind: FlushKind,
    /// Seconds after the cycle's start at which this node's flush is
    /// dispatched: the cycle's interval spread evenly across the slots, so
    /// node flushes never coincide.
    pub delay_seconds: u64,
}

/// Periodic flush job state: the configuration and the position within the
/// full-flush period.
#[derive(Clone, Copy, Debug)]
pub struct FlushScheduler {
    /// The job's configuration, fixed for the session.
    pub profile: FlushProfile,
    /// Cycles since the last full flush; the next cycle is full exactly
    /// when this is zero.
    pub iteration: u64,
}

impl FlushScheduler {
    /// Scheduler invariant: the iteration counter stays inside the period.
    pub open spec fn well_formed(self) -> bool {
        &&& self.profile.well_formed()
        &&& self.iteration < self.profile.full_every
    }

    /// A scheduler whose first cycle is a full flush.
    pub fn new(profile: FlushProfile) -> (r: Option<FlushScheduler>)
        ensures
            profile.well_formed() ==> (r matches Some(s) && s == (FlushScheduler {
                profile,
                iteration: 0,
            })),
            !profile.well_formed() ==> r is None,
            r matches Some(s) ==> s.well_formed(),
    {
        if profile.full_every >= 1 {
            Some(FlushScheduler { profile, iteration: 0 })
        } else {
            None
        }
    }

    /// The kind the next cycle issues.
    pub open spec fn next_kind(self) -> FlushKind {
        if self.iteration == 0 {
            FlushKind::Full
        } else {
            FlushKind::MemoryOnly
        }
    }

    /// Plans one cycle: one dispatch per node slot, in slot order, all of
    /// the cycle's kind, staggered by `interval / node_count` seconds so no
    /// two node flushes coincide; then steps the full-flush counter.
    pub fn next_cycle(&mut self, node_count: u64) -> (dispatches: Vec<FlushDispatch>)
        requires
            old(self).well_formed(),
            1 <= node_count,
        ensures
            final(self).well_formed(),
            final(self).profile == old(self).profile,
            final(self).iteration == (old(self).iteration + 1) % old(self).profile.full_every as int,
            dispatches@.len() == node_count,
            forall|i: int|
                0 <= i < node_count ==> #[trigger] dispatches@[i] == (FlushDispatch {
                    node_index: i as u64,
                    kind: old(self).next_kind(),
                    delay_seconds: (i * (old(self).profile.interval_seconds as int
                        / node_count as int)) as u64,
                }),
    {
        let kind = if self.iteration == 0 {
            FlushKind::Full
        } else {
            FlushKind::MemoryOnly
        };
        let stagger = self.profile.interval_seconds / node_count;
        proof {
            lemma_fundamental_div_mod(self.profile.interval_seconds as int, node_count as int);
            lemma_mod_bound(self.profile.interval_seconds as int, node_count as int);
        }
        let mut dispatches: Vec<FlushDispatch> = Vec::new();
        let mut i: u64 = 0;
        while i < node_count
            invariant
                i <= node_count,
                stagger == self.profile.interval_seconds as int / node_count as int,
                node_count as int * stagger <= self.profile.interval_seconds,
                1 <= node_count,
                kind == self.next_kind(),
                dispatches@.len() == i,
                forall|j: int|
                    0 <= j < i ==> #[trigger] dispatches@[j] == (FlushDispatch {
                        node_index: j as u64,
                        kind: self.next_kind(),
                        delay_seconds: (j * stagger) as u64,
                    }),
            decreases node_count - i,
        {
            proof {
                lemma_mul_inequality(i as int, node_count as int, stagger as int);
                vstd::arithmetic::mul::lemma_mul_nonnegative(i as int, stagger as int);
            }
            dispatches.push(FlushDispatch { node_index: i, kind, delay_seconds: i * stagger });
            i = i + 1;
        }
        self.iteration = if self.iteration + 1 == self.profile.full_every {
            0
        } else {
            self.iteration + 1
        };
        proof {
            if old(self).iteration + 1 == old(self).profile.full_every {
                vstd::arithmetic::div_mod::lemma_mod_self_0(old(self).profile.full_every as int);
            } else {
                vstd::arithmetic::div_mod::lemma_small_mod(
                    (old(self).iteration + 1) as nat,
                    old(self).profile.full_every as nat,
                );
            }
        }
        dispatches
    }
}

/// The steps one node's flush performs, in order: a memory-only flush is
/// the one flush action; a full flush announces itself, flushes through to
/// the object store, vacuums when the profile asks for it, and ends by
/// measuring the table.
pub open spec fn spec_flush_steps(kind: FlushKind, vacuum_on_full: bool) -> Seq<FlushStep> {
    match kind {
        FlushKind::MemoryOnly => seq![FlushStep::Act(RemoteAction::FlushMemory)],
        FlushKind::Full => seq![
            FlushStep::EmitFlushNotice,
            FlushStep::Act(RemoteAction::FlushNode),
        ] + (if vacuum_on_full {
            seq![FlushStep::Act(RemoteAction::Vacuum)]
        } else {
            Seq::empty()
        }) + seq![FlushStep::PollTableSize],
    }
}

/// Plans the steps of one node's flush.
pub fn flush_steps(kind: FlushKind, vacuum_on_full: bool) -> (r: Vec<FlushStep>)
    ensures
        r@ == spec_flush_steps(kind, vacuum_on_full),
{
    let mut r: Vec<FlushStep> = Vec::new();
    match kind {
        FlushKind::MemoryOnly => {
            r.push(FlushStep::Act(RemoteAction::FlushMemory));
        },
        FlushKind::Full => {
            r.push(FlushStep::EmitFlushNotice);
            r.push(FlushStep::Act(RemoteAction::FlushNode));
            if vacuum_on_full {
                r.push(FlushStep::Act(RemoteAction::Vacuum));
            }
            r.push(FlushStep::PollTableSize);
        },
    }
    proof {
        assert(r@ =~= spec_flush_steps(kind, vacuum_on_full));
    }
    r
}

} // verus!
