//! Row synthesis: the timestamp column and the two tag columns that are
//! prepended to every replayed slice.

use vstd::arithmetic::div_mod::{
    lemma_div_by_self, lemma_div_is_ordered, lemma_fundamental_div_mod, lemma_mod_bound,
};
use vstd::arithmetic::mul::{lemma_mul_inequality, lemma_mul_is_distributive_add_other_way};
use vstd::prelude::*;

verus! {

/// Microseconds between consecutive synthesized timestamps for a batch of
/// `rows` rows spanning `duration_micros`: the span divided evenly, rounded
/// down.
pub open spec fn timestamp_step(duration_micros: int, rows: int) -> int {
    duration_micros / rows
}

/// The timestamp column of a batch of `rows` rows whose tick started at
/// `start_micros` and spans `duration_micros`: evenly spaced values
/// beginning at the start time.
pub open spec fn spec_timestamps(start_micros: int, duration_micros: int, rows: nat) -> Seq<
    i64,
> {
    Seq::new(rows, |k: int| (start_micros + k * timestamp_step(duration_micros, rows as int)) as i64)
}

/// Synthesizes the timestamp column of one batch: `rows` strictly
/// increasing values, starting at the tick's wall-clock start
/// `start_micros` and spaced `duration_micros / rows` apart, so the last
/// value lands `(rows - 1) * (duration_micros / rows)` after the first and
/// within `duration_micros` of it.
pub fn synthesize_timestamps(start_micros: i64, duration_micros: i64, rows: usize) -> (r: Vec<
    i64,
>)
    requires
        1 <= rows,
        rows <= duration_micros,
        0 <= start_micros,
        start_micros + duration_micros <= i64::MAX,
    ensures
        r@.len() == rows,
        r@ == spec_timestamps(start_micros as int, duration_micros as int, rows as nat),
        forall|k: int|
            0 <= k < rows ==> #[trigger] r@[k] == start_micros + k * timestamp_step(
                duration_micros as int,
                rows as int,
            ),
        r@[0] == start_micros,
        r@[rows - 1] == start_micros + (rows - 1) * timestamp_step(
            duration_micros as int,
            rows as int,
        ),
        forall|k: int| 0 <= k < rows - 1 ==> #[trigger] r@[k] < r@[k + 1],
        r@[rows - 1] <= start_micros + duration_micros,
{
    let step = duration_micros / (rows as i64);
    let ghost stepg = timestamp_step(duration_micros as int, rows as int);
    proof {
        lemma_step_bounds(duration_micros as int, rows as int);
    }
    let mut r: Vec<i64> = Vec::new();
    let mut next: i64 = start_micros;
    let mut k: usize = 0;
    while k < rows
        invariant
            k <= rows,
            r@.len() == k,
            step == stepg,
            1 <= stepg,
            rows as int * stepg <= duration_micros,
            1 <= rows,
            0 <= start_micros,
            start_micros + duration_micros <= i64::MAX,
            next == start_micros + k as int * stepg,
            forall|j: int| 0 <= j < k ==> #[trigger] r@[j] == start_micros + j * stepg,
        decreases rows - k,
    {
        r.push(next);
        proof {
            lemma_mul_is_distributive_add_other_way(stepg, k as int, 1);
            lemma_mul_inequality(k as int + 1, rows as int, stepg);
        }
        next = next + step;
        k = k + 1;
    }
    proof {
        lemma_mul_inequality(rows as int - 1, rows as int, stepg);
        assert forall|j: int| 0 <= j < rows - 1 implies #[trigger] r@[j] < r@[j + 1] by {
            lemma_mul_is_distributive_add_other_way(stepg, j, 1);
            assert(r@[j + 1] == start_micros + (j + 1) * stepg);
        }
        assert forall|j: int|
            0 <= j < rows implies #[trigger] r@[j] == spec_timestamps(
            start_micros as int,
            duration_micros as int,
            rows as nat,
        )[j] by {
            lemma_mul_inequality(j, rows as int, stepg);
            vstd::arithmetic::mul::lemma_mul_nonnegative(j, stepg);
        }
        assert(r@ =~= spec_timestamps(start_micros as int, duration_micros as int, rows as nat));
    }
    r
}

/// For a span of at least one microsecond per row, the step is at least one
/// microsecond and all `rows` steps together stay within the span.
proof fn lemma_step_bounds(duration_micros: int, rows: int)
    requires
        1 <= rows <= duration_micros,
    ensures
        1 <= timestamp_step(duration_micros, rows),
        rows * timestamp_step(duration_micros, rows) <= duration_micros,
{
    lemma_div_by_self(rows);
    lemma_div_is_ordered(rows, duration_micros, rows);
    lemma_fundamental_div_mod(duration_micros, rows);
    lemma_mod_bound(duration_micros, rows);
}

/// The park tag of a node slot: the first five slots belong to the first
/// park, every further slot to the second.
pub open spec fn spec_park_id(node_index: u64) -> Seq<char> {
    if node_index < 5 {
        "park_1"@
    } else {
        "park_2"@
    }
}

/// Synthesizes the `park_id` tag for node slot `node_index`.
pub fn park_id(node_index: u64) -> (r: String)
    ensures
        r@ == spec_park_id(node_index),
{
    if node_index < 5 {
        "park_1".to_owned()
    } else {
        "park_2".to_owned()
    }
}

/// The decimal digit characters of `n`, most significant first.
pub open spec fn decimal_digits(n: nat) -> Seq<char>
    decreases n,
{
    if n < 10 {
        seq![digit_char(n)]
    } else {
        decimal_digits(n / 10) + seq![digit_char(n % 10)]
    }
}

/// The character of a single decimal digit.
pub open spec fn digit_char(d: nat) -> char {
    if d == 0 {
        '0'
    } else if d == 1 {
        '1'
    } else if d == 2 {
        '2'
    } else if d == 3 {
        '3'
    } else if d == 4 {
        '4'
    } else if d == 5 {
        '5'
    } else if d == 6 {
        '6'
    } else if d == 7 {
        '7'
    } else if d == 8 {
        '8'
    } else {
        '9'
    }
}

/// The one-character string of a single decimal digit.
fn digit_str(d: u64) -> (r: &'static str)
    requires
        d < 10,
    ensures
        r@ =~= seq![digit_char(d as nat)],
{
    proof {
        reveal_strlit("0");
        reveal_strlit("1");
        reveal_strlit("2");
        reveal_strlit("3");
        reveal_strlit("4");
        reveal_strlit("5");
        reveal_strlit("6");
        reveal_strlit("7");
        reveal_strlit("8");
        reveal_strlit("9");
    }
    match d {
        0 => "0",
        1 => "1",
        2 => "2",
        3 => "3",
        4 => "4",
        5 => "5",
        6 => "6",
        7 => "7",
        8 => "8",
        _ => "9",
    }
}

/// Renders `n` in decimal, most significant digit first.
pub fn decimal_string(n: u64) -> (r: String)
    ensures
        r@ == decimal_digits(n as nat),
    decreases n,
{
    if n < 10 {
        digit_str(n).to_owned()
    } else {
        let mut prefix = decimal_string(n / 10);
        prefix.append(digit_str(n % 10));
        prefix
    }
}

/// The windmill tag of a node slot: `windmill_` followed by the slot's
/// one-based position in decimal.
pub open spec fn spec_windmill_id(node_index: u64) -> Seq<char> {
    "windmill_"@ + decimal_digits((node_index + 1) as nat)
}

/// Synthesizes the `windmill_id` tag for node slot `node_index`.
pub fn windmill_id(node_index: u64) -> (r: String)
    requires
        node_index < u64::MAX,
    ensures
        r@ == spec_windmill_id(node_index),
{
    let mut r = "windmill_".to_owned();
    let digits = decimal_string(node_index + 1);
    r.append(digits.as_str());
    r
}

} // verus!
