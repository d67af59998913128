//! Replay cursor: the shared offset that successive ticks of an ingestion
//! job read from, with its wraparound rule.

use vstd::arithmetic::div_mod::{lemma_fundamental_div_mod, lemma_mod_bound};
use vstd::arithmetic::mul::{lemma_mul_inequality, lemma_mul_is_distributive_add_other_way};
use vstd::prelude::*;

verus! {

/// Offset/wraparound state driving successive ticks of a replay.
///
/// Each tick reads `count` rows starting at `offset` inside a per-node
/// window of `window` rows, then advances.  The cursor guarantees that a
/// tick never reads past the window: `offset + count <= window` at all
/// times.
#[derive(Clone, Copy, Debug)]
pub struct ReplayCursor {
    /// Start of the range the next tick reads, relative to a node's window.
    pub offset: u64,
    /// Rows read per node per tick.
    pub count: u64,
    /// Rows in each node's window.
    pub window: u64,
}

impl ReplayCursor {
    /// The cursor invariant: every tick's read range fits in the window.
    pub open spec fn well_formed(self) -> bool {
        &&& 1 <= self.count
        &&& self.offset + self.count <= self.window
    }

    /// Creates a cursor at offset 0, or `None` when `count` rows can never
    /// fit in a window of `window` rows.
    pub fn new(count: u64, window: u64) -> (r: Option<ReplayCursor>)
        ensures
            1 <= count && count <= window ==> (r matches Some(c) && c == (ReplayCursor {
                offset: 0,
                count,
                window,
            })),
            count < 1 || count > window ==> r is None,
            r matches Some(c) ==> c.well_formed(),
    {
        if 1 <= count && count <= window {
            Some(ReplayCursor { offset: 0, count, window })
        } else {
            None
        }
    }

    /// The offset the cursor holds after one advance: move forward by
    /// `count` rows, and reset to 0 as soon as one more full read would
    /// run past the window.
    pub open spec fn next_offset(self) -> int {
        if self.offset + self.count + self.count > self.window {
            0
        } else {
            self.offset + self.count
        }
    }

    /// The cursor after one advance.
    pub open spec fn advanced(self) -> ReplayCursor {
        ReplayCursor { offset: self.next_offset() as u64, count: self.count, window: self.window }
    }

    /// The cursor after `n` advances.
    pub open spec fn iterated(self, n: nat) -> ReplayCursor
        decreases n,
    {
        if n == 0 {
            self
        } else {
            self.iterated((n - 1) as nat).advanced()
        }
    }

    /// Advances the cursor past the range the current tick consumed.
    ///
    /// The current tick reads `[offset, offset + count)` before this call;
    /// the wraparound check applies to the advanced offset, so a tick always
    /// consumes the pre-advance range.
    pub fn advance(&mut self)
        requires
            old(self).well_formed(),
        ensures
            final(self).well_formed(),
            *final(self) == old(self).advanced(),
            final(self).offset == old(self).next_offset(),
            final(self).count == old(self).count,
            final(self).window == old(self).window,
    {
        let moved = self.offset + self.count;
        if self.count > self.window - moved {
            self.offset = 0;
        } else {
            self.offset = moved;
        }
    }
}

/// The replay is periodic: starting at the window's first row, the cursor
/// visits the offsets `0, count, 2*count, ...` in order, one per tick, and
/// after exactly `window / count` ticks it is back at offset 0.
pub proof fn lemma_cursor_cycle(cursor: ReplayCursor, j: nat)
    requires
        cursor.well_formed(),
        cursor.offset == 0,
        j <= cursor.window as int / cursor.count as int,
    ensures
        j < cursor.window as int / cursor.count as int ==> cursor.iterated(j).offset == j
            * cursor.count,
        j == cursor.window as int / cursor.count as int ==> cursor.iterated(j).offset == 0,
        cursor.iterated(j).count == cursor.count,
        cursor.iterated(j).window == cursor.window,
        cursor.iterated(j).well_formed(),
    decreases j,
{
    let c = cursor.count as int;
    let w = cursor.window as int;
    let m = w / c;
    lemma_fundamental_div_mod(w, c);
    lemma_mod_bound(w, c);
    if j != 0 {
        lemma_cursor_cycle(cursor, (j - 1) as nat);
        lemma_mul_is_distributive_add_other_way(c, j - 1, 1);
        lemma_mul_is_distributive_add_other_way(c, j - 1, 2);
        if j < m {
            // One more full read still fits, so the offset moves forward.
            lemma_mul_inequality(j as int + 1, m, c);
            assert((j - 1) * c + c + c <= w);
        } else {
            // The next full read would run past the window, so the offset
            // resets.
            assert(m * c + (w % c) == w);
            lemma_mul_is_distributive_add_other_way(c, m - 1, 2);
            assert((j - 1) * c + c + c > w);
        }
        lemma_mul_inequality(j as int, m, c);
    }
}

/// Within one cycle, no two ticks read the same row: the range tick `j1`
/// consumes ends before the range tick `j2` consumes begins.
pub proof fn lemma_tick_ranges_disjoint(cursor: ReplayCursor, j1: nat, j2: nat)
    requires
        cursor.well_formed(),
        cursor.offset == 0,
        j1 < j2 < cursor.window as int / cursor.count as int,
    ensures
        cursor.iterated(j1).offset + cursor.count <= cursor.iterated(j2).offset,
{
    lemma_cursor_cycle(cursor, j1);
    lemma_cursor_cycle(cursor, j2);
    let c = cursor.count as int;
    lemma_mul_is_distributive_add_other_way(c, j1 as int, 1);
    lemma_mul_inequality(j1 as int + 1, j2 as int, c);
}

} // verus!
