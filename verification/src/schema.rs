//! The fixed schema of the replayed table: one timestamp, two synthesized
//! tags, and the dataset's ten field columns, in schema order.

use vstd::prelude::*;

verus! {

/// What a column holds.
#[derive(Clone, Copy, Debug, PartialEq, Eq, Structural)]
pub enum ColumnKind {
    /// The synthesized 8-byte timestamp.
    Timestamp,
    /// A synthesized 4-byte tag.
    Tag,
    /// A 4-byte field copied verbatim from the dataset.
    Field,
}

/// One column of the table.
#[derive(Debug)]
pub struct Column {
    /// The column's name.
    pub name: String,
    /// What the column holds.
    pub kind: ColumnKind,
}

/// Number of non-timestamp columns in a schema: the tag and field columns
/// the ingested-size formula counts 4 bytes each for.
pub open spec fn spec_non_timestamp_count(s: Seq<Column>) -> int
    decreases s.len(),
{
    if s.len() == 0 {
        0
    } else {
        spec_non_timestamp_count(s.drop_last()) + if s.last().kind is Timestamp {
            0int
        } else {
            1int
        }
    }
}

/// The name of the replayed table.
pub fn table_name() -> (r: String)
    ensures
        r@ == "wind"@,
{
    "wind".to_owned()
}

/// The full schema of the replayed table, in schema order: the synthesized
/// timestamp, the two synthesized tags, then the dataset's ten fields.
/// Its twelve non-timestamp columns are what the ingested-size formula
/// counts.
pub fn table_schema() -> (r: Vec<Column>)
    ensures
        r@.len() == 13,
        r@[0].name@ == "timestamp"@ && r@[0].kind == ColumnKind::Timestamp,
        r@[1].name@ == "park_id"@ && r@[1].kind == ColumnKind::Tag,
        r@[2].name@ == "windmill_id"@ && r@[2].kind == ColumnKind::Tag,
        r@[3].name@ == "wind_speed"@,
        r@[4].name@ == "pitch_angle"@,
        r@[5].name@ == "rotor_speed"@,
        r@[6].name@ == "active_power"@,
        r@[7].name@ == "cos_nacelle_dir"@,
        r@[8].name@ == "sin_nacelle_dir"@,
        r@[9].name@ == "cos_wind_dir"@,
        r@[10].name@ == "sin_wind_dir"@,
        r@[11].name@ == "cor_nacelle_direction"@,
        r@[12].name@ == "cor_wind_direction"@,
        forall|i: int| 3 <= i < 13 ==> (#[trigger] r@[i]).kind == ColumnKind::Field,
        spec_non_timestamp_count(r@) == 12,
{
    let mut r: Vec<Column> = Vec::new();
    r.push(Column { name: "timestamp".to_owned(), kind: ColumnKind::Timestamp });
    r.push(Column { name: "park_id".to_owned(), kind: ColumnKind::Tag });
    r.push(Column { name: "windmill_id".to_owned(), kind: ColumnKind::Tag });
    r.push(Column { name: "wind_speed".to_owned(), kind: ColumnKind::Field });
    r.push(Column { name: "pitch_angle".to_owned(), kind: ColumnKind::Field });
    r.push(Column { name: "rotor_speed".to_owned(), kind: ColumnKind::Field });
    r.push(Column { name: "active_power".to_owned(), kind: ColumnKind::Field });
    r.push(Column { name: "cos_nacelle_dir".to_owned(), kind: ColumnKind::Field });
    r.push(Column { name: "sin_nacelle_dir".to_owned(), kind: ColumnKind::Field });
    r.push(Column { name: "cos_wind_dir".to_owned(), kind: ColumnKind::Field });
    r.push(Column { name: "sin_wind_dir".to_owned(), kind: ColumnKind::Field });
    r.push(Column { name: "cor_nacelle_direction".to_owned(), kind: ColumnKind::Field });
    r.push(Column { name: "cor_wind_direction".to_owned(), kind: ColumnKind::Field });
    proof {
        reveal_with_fuel(spec_non_timestamp_count, 14);
    }
    r
}

/// Counts the non-timestamp columns of a schema.
pub fn non_timestamp_count(schema: &Vec<Column>) -> (r: u64)
    requires
        schema@.len() <= u64::MAX,
    ensures
        r == spec_non_timestamp_count(schema@),
{
    proof {
        lemma_non_timestamp_count_bounds(schema@);
    }
    let mut r: u64 = 0;
    let mut i: usize = 0;
    while i < schema.len()
        invariant
            i <= schema@.len(),
            schema@.len() <= u64::MAX,
            r == spec_non_timestamp_count(schema@.subrange(0, i as int)),
            r <= i,
        decreases schema@.len() - i,
    {
        proof {
            let pre = schema@.subrange(0, i as int);
            let ext = schema@.subrange(0, i as int + 1);
            assert(ext.drop_last() =~= pre);
            assert(ext.last() == schema@[i as int]);
        }
        if !matches!(schema[i].kind, ColumnKind::Timestamp) {
            r = r + 1;
        }
        i = i + 1;
    }
    proof {
        assert(schema@.subrange(0, schema@.len() as int) =~= schema@);
    }
    r
}

/// A schema never has more non-timestamp columns than columns.
proof fn lemma_non_timestamp_count_bounds(s: Seq<Column>)
    ensures
        0 <= spec_non_timestamp_count(s) <= s.len(),
    decreases s.len(),
{
    if s.len() > 0 {
        lemma_non_timestamp_count_bounds(s.drop_last());
    }
}

/// The names of the schema's field columns, in schema order: the columns a
/// created table carries an error bound for.
pub fn field_column_names(schema: &Vec<Column>) -> (r: Vec<String>)
    ensures
        r@.len() == spec_field_names(schema@).len(),
        forall|k: int|
            0 <= k < r@.len() ==> (#[trigger] r@[k])@ == spec_field_names(schema@)[k],
{
    let mut r: Vec<String> = Vec::new();
    let mut i: usize = 0;
    while i < schema.len()
        invariant
            i <= schema@.len(),
            r@.len() == spec_field_names(schema@.subrange(0, i as int)).len(),
            forall|k: int|
                0 <= k < r@.len() ==> (#[trigger] r@[k])@ == spec_field_names(
                    schema@.subrange(0, i as int),
                )[k],
        decreases schema@.len() - i,
    {
        proof {
            let pre = schema@.subrange(0, i as int);
            let ext = schema@.subrange(0, i as int + 1);
            assert(ext.drop_last() =~= pre);
            assert(ext.last() == schema@[i as int]);
        }
        if matches!(schema[i].kind, ColumnKind::Field) {
            r.push(schema[i].name.clone());
        }
        i = i + 1;
    }
    proof {
        assert(schema@.subrange(0, schema@.len() as int) =~= schema@);
    }
    r
}

/// The names of a schema's field columns, in schema order.
pub open spec fn spec_field_names(s: Seq<Column>) -> Seq<Seq<char>>
    decreases s.len(),
{
    if s.len() == 0 {
        Seq::empty()
    } else {
        spec_field_names(s.drop_last()) + if s.last().kind is Field {
            seq![s.last().name@]
        } else {
            Seq::empty()
        }
    }
}

} // verus!
