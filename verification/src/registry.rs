//! Task registry: at most one live job per category, replacing-and-aborting
//! on every start.

use vstd::prelude::*;

verus! {

/// The three kinds of periodic jobs the session runs.
#[derive(Clone, Copy, Debug, PartialEq, Eq, Structural)]
pub enum JobCategory {
    Ingestion,
    Flush,
    Monitor,
}

/// What a `start` command did: which job it installed and which, if any,
/// it superseded.  The shell aborts the superseded handle.
#[derive(Clone, Copy, Debug, PartialEq, Eq, Structural)]
pub struct StartOutcome {
    /// Identifier of the freshly installed job.
    pub started: u64,
    /// Identifier of the job that held the category before, if one did.
    pub superseded: Option<u64>,
}

/// Owns the identifier of the live job of each category.
///
/// Job identifiers are handed out from a strictly increasing counter, so an
/// identifier that has been superseded is never live again.  The unverified
/// shell keeps the cancellable handles; it aborts a handle exactly when this
/// registry reports its identifier as superseded, and a job's tick body asks
/// `is_live` before emitting anything, which is how a superseded job falls
/// silent.
#[derive(Clone, Copy, Debug)]
pub struct TaskRegistry {
    /// Live job of the Ingestion category.
    pub ingestion: Option<u64>,
    /// Live job of the Flush category.
    pub flush: Option<u64>,
    /// Live job of the Monitor category.
    pub monitor: Option<u64>,
    /// Counter the next start draws a fresh identifier from.
    pub next_id: u64,
}

impl TaskRegistry {
    /// The identifier of the live job for `category`, if one is live.
    pub open spec fn slot(self, category: JobCategory) -> Option<u64> {
        match category {
            JobCategory::Ingestion => self.ingestion,
            JobCategory::Flush => self.flush,
            JobCategory::Monitor => self.monitor,
        }
    }

    /// The counter the next start draws from.
    pub open spec fn spec_next_id(self) -> u64 {
        self.next_id
    }

    /// Whether `id` is the live job of `category`.
    pub open spec fn spec_is_live(self, category: JobCategory, id: u64) -> bool {
        self.slot(category) == Some(id)
    }

    /// Registry invariant: every installed identifier was drawn from the
    /// counter, so identifiers at or past `next_id` are fresh.
    pub open spec fn well_formed(self) -> bool {
        forall|c: JobCategory| #[trigger] self.slot(c) matches Some(id) ==> id < self.next_id
    }

    /// A registry with no live job in any category.
    pub fn new() -> (r: TaskRegistry)
        ensures
            r.well_formed(),
            forall|c: JobCategory| #[trigger] r.slot(c) is None,
            r.spec_next_id() == 0,
    {
        TaskRegistry { ingestion: None, flush: None, monitor: None, next_id: 0 }
    }

    /// Installs a fresh job for `category`, superseding the category's
    /// previous job if one was live.  Other categories are untouched.
    pub fn start(&mut self, category: JobCategory) -> (outcome: StartOutcome)
        requires
            old(self).well_formed(),
            old(self).spec_next_id() < u64::MAX,
        ensures
            final(self).well_formed(),
            outcome.started == old(self).spec_next_id(),
            outcome.superseded == old(self).slot(category),
            final(self).slot(category) == Some(outcome.started),
            forall|c: JobCategory| c != category ==> #[trigger] final(self).slot(c) == old(
                self,
            ).slot(c),
            final(self).spec_next_id() == old(self).spec_next_id() + 1,
    {
        let started = self.next_id;
        self.next_id = self.next_id + 1;
        let superseded = match category {
            JobCategory::Ingestion => {
                let s = self.ingestion;
                self.ingestion = Some(started);
                s
            },
            JobCategory::Flush => {
                let s = self.flush;
                self.flush = Some(started);
                s
            },
            JobCategory::Monitor => {
                let s = self.monitor;
                self.monitor = Some(started);
                s
            },
        };
        proof {
            assert forall|c: JobCategory| (#[trigger] self.slot(c) matches Some(id) ==> id
                < self.next_id) by {
                if c != category {
                    assert(self.slot(c) == old(self).slot(c));
                }
            }
        }
        StartOutcome { started, superseded }
    }

    /// Clears every category, returning the identifiers that were live so
    /// the shell can abort their handles.  Order: Ingestion, Flush, Monitor.
    pub fn reset_all(&mut self) -> (aborted: Vec<u64>)
        requires
            old(self).well_formed(),
        ensures
            final(self).well_formed(),
            forall|c: JobCategory| #[trigger] final(self).slot(c) is None,
            final(self).spec_next_id() == old(self).spec_next_id(),
            aborted@ == abortable(
                old(self).slot(JobCategory::Ingestion),
                old(self).slot(JobCategory::Flush),
                old(self).slot(JobCategory::Monitor),
            ),
    {
        let mut aborted: Vec<u64> = Vec::new();
        if let Some(id) = self.ingestion {
            aborted.push(id);
        }
        if let Some(id) = self.flush {
            aborted.push(id);
        }
        if let Some(id) = self.monitor {
            aborted.push(id);
        }
        self.ingestion = None;
        self.flush = None;
        self.monitor = None;
        proof {
            assert(aborted@ =~= abortable(
                old(self).slot(JobCategory::Ingestion),
                old(self).slot(JobCategory::Flush),
                old(self).slot(JobCategory::Monitor),
            ));
        }
        aborted
    }

    /// Whether `id` still holds the category: a periodic job calls this at
    /// the top of every tick and emits nothing once it has been superseded.
    pub fn is_live(&self, category: JobCategory, id: u64) -> (r: bool)
        ensures
            r == self.spec_is_live(category, id),
    {
        let slot = match category {
            JobCategory::Ingestion => &self.ingestion,
            JobCategory::Flush => &self.flush,
            JobCategory::Monitor => &self.monitor,
        };
        match slot {
            Some(live) => *live == id,
            None => false,
        }
    }
}

/// The identifiers among three optional slots, in slot order.
pub open spec fn abortable(a: Option<u64>, b: Option<u64>, c: Option<u64>) -> Seq<u64> {
    opt_seq(a) + opt_seq(b) + opt_seq(c)
}

/// A one-element sequence for a live identifier, empty for none.
pub open spec fn opt_seq(s: Option<u64>) -> Seq<u64> {
    match s {
        Some(id) => seq![id],
        None => Seq::empty(),
    }
}

/// Starting a category twice leaves exactly one live job for it — the one
/// the second start installed — and reports the first start's job as the
/// one the second start superseded, so its handle is aborted and `is_live`
/// answers false for it from then on: at its next tick, at the latest, the
/// superseded job emits nothing.
pub proof fn lemma_start_twice_leaves_one_live(
    r0: TaskRegistry,
    r1: TaskRegistry,
    r2: TaskRegistry,
    category: JobCategory,
    first: StartOutcome,
    second: StartOutcome,
)
    requires
        r0.well_formed(),
        // the first start's contract, from r0 to r1
        first.started == r0.spec_next_id(),
        r1.slot(category) == Some(first.started),
        r1.spec_next_id() == r0.spec_next_id() + 1,
        forall|c: JobCategory| c != category ==> r1.slot(c) == #[trigger] r0.slot(c),
        // the second start's contract, from r1 to r2
        second.started == r1.spec_next_id(),
        second.superseded == r1.slot(category),
        r2.slot(category) == Some(second.started),
        forall|c: JobCategory| c != category ==> r2.slot(c) == #[trigger] r1.slot(c),
    ensures
        r2.slot(category) == Some(second.started),
        second.superseded == Some(first.started),
        forall|c: JobCategory| !(#[trigger] r2.spec_is_live(c, first.started)),
{
    assert(first.started < second.started);
    assert forall|c: JobCategory| !(#[trigger] r2.spec_is_live(c, first.started)) by {
        if c != category {
            assert(r2.slot(c) == r1.slot(c));
            assert(r1.slot(c) == r0.slot(c));
            assert(r0.slot(c) matches Some(id) ==> id < r0.spec_next_id());
        }
    }
}

} // verus!
