use vstd::prelude::*;
use crate::value::{ArgValue, field_of};
use crate::args::{
    ts_le,
    ArgError, ArgKey, Timestamp, in_era, range_args, small_uint_arg, string_arg, datetime_arg,
    datetime_range_arg, get_range_args, get_args_u8, get_args_string, get_args_datetime,
    get_args_datetimerange, key_name,
};
use crate::catalogue::{TextKind, TypeKind, kind_of, is_listed, type_kind};
use crate::sample::{
    random_in, fake_sentence, instant_text, text_shape, fake_paragraph, fake_password, fake_number_with_format,
    fake_geohash, fake_datetime_before, fake_datetime_after, fake_datetime_between, sample_text,
    numerified, rfc3339_text,
};

verus! {

/// A semantic type together with its validated arguments.
#[derive(Debug)]
pub enum Plan {
    U32(u32, u32),
    U64(u64, u64),
    I32(i32, i32),
    I64(i64, i64),
    /// Floating-point values, drawn by the caller from the column's own
    /// range arguments.
    Float { double: bool },
    Boolean(u8),
    Sentence(usize, usize),
    Paragraph(usize, usize),
    Password(usize, usize),
    NumberWithFormat(String),
    Geohash(u8),
    Before(Timestamp),
    After(Timestamp),
    Between(Timestamp, Timestamp),
    Text(TextKind),
}

/// The values of one column.
#[derive(Debug)]
pub enum ColumnData {
    U32(Vec<u32>),
    U64(Vec<u64>),
    I32(Vec<i32>),
    I64(Vec<i64>),
    /// A column of `rows` floating-point values, left for the caller to draw.
    Float { double: bool, rows: usize },
    Bool(Vec<bool>),
    Text(Vec<String>),
}

/// A named column.
#[derive(Debug)]
pub struct Column {
    pub name: String,
    pub data: ColumnData,
}

/// Columns in schema order, all of one length.
#[derive(Debug)]
pub struct Table {
    pub columns: Vec<Column>,
}

/// Why no table was produced.
#[derive(Debug, PartialEq, Eq)]
pub enum GenerateError {
    /// The schema has no `columns` array.
    MissingColumns,
    /// A column's type name is not in the catalogue.
    UnsupportedType(String),
    /// A column's arguments were refused.
    InvalidArgument(ArgError),
}

/// The number of values a column holds.
pub open spec fn data_len(d: ColumnData) -> nat {
    match d {
        ColumnData::U32(v) => v.len() as nat,
        ColumnData::U64(v) => v.len() as nat,
        ColumnData::I32(v) => v.len() as nat,
        ColumnData::I64(v) => v.len() as nat,
        ColumnData::Float { rows, .. } => rows as nat,
        ColumnData::Bool(v) => v.len() as nat,
        ColumnData::Text(v) => v.len() as nat,
    }
}

impl Table {
    /// Whether every column holds exactly `n` values.
    pub open spec fn has_rows(self, n: nat) -> bool {
        forall|i: int| 0 <= i < self.columns.len() ==> data_len(#[trigger] self.columns[i].data) == n
    }
}

/// Whether two instants lie a minute or more apart, the first one earlier.
pub open spec fn spans_minute(s: Timestamp, e: Timestamp) -> bool {
    (e.secs - s.secs) * 1_000_000_000 + e.nanos - s.nanos >= 60_000_000_000
}

/// An integer range over a type whose values are `[lo, hi]`, by default the
/// whole type.
pub open spec fn int_range(col_def: ArgValue, signed: bool, lo: int, hi: int) -> Result<(int, int), ArgError> {
    range_args(col_def, signed, lo, hi, lo, hi)
}

/// A range of counts, as the half-open `start..end` to draw from: equal
/// bounds ask for exactly that count, which the largest `usize` cannot be.
pub open spec fn count_range(col_def: ArgValue, ds: int, de: int) -> Result<(int, int), ArgError> {
    match range_args(col_def, false, 0, usize::MAX as int, ds, de) {
        Ok(p) => if p.0 < p.1 {
            Ok(p)
        } else if p.0 < usize::MAX {
            Ok((p.0, p.0 + 1))
        } else {
            Err(ArgError::InvalidRange)
        },
        Err(e) => Err(e),
    }
}

/// What a type kind makes of a column's arguments.
pub open spec fn plan_of(k: TypeKind, col_def: ArgValue) -> Result<Plan, ArgError> {
    match k {
        TypeKind::U32 => match int_range(col_def, false, 0, u32::MAX as int) {
            Ok(p) => Ok(Plan::U32(p.0 as u32, p.1 as u32)),
            Err(e) => Err(e),
        },
        TypeKind::U64 => match int_range(col_def, false, 0, u64::MAX as int) {
            Ok(p) => Ok(Plan::U64(p.0 as u64, p.1 as u64)),
            Err(e) => Err(e),
        },
        TypeKind::I32 => match int_range(col_def, true, i32::MIN as int, i32::MAX as int) {
            Ok(p) => Ok(Plan::I32(p.0 as i32, p.1 as i32)),
            Err(e) => Err(e),
        },
        TypeKind::I64 => match int_range(col_def, true, i64::MIN as int, i64::MAX as int) {
            Ok(p) => Ok(Plan::I64(p.0 as i64, p.1 as i64)),
            Err(e) => Err(e),
        },
        TypeKind::F32 => Ok(Plan::Float { double: false }),
        TypeKind::F64 => Ok(Plan::Float { double: true }),
        TypeKind::Boolean => match small_uint_arg(col_def, "ratio"@) {
            Some(r) => Ok(Plan::Boolean(r)),
            None => Err(ArgError::Missing(ArgKey::Ratio)),
        },
        TypeKind::Sentence => match count_range(col_def, 3, 10) {
            Ok(p) => Ok(Plan::Sentence(p.0 as usize, p.1 as usize)),
            Err(e) => Err(e),
        },
        TypeKind::Paragraph => match count_range(col_def, 3, 7) {
            Ok(p) => Ok(Plan::Paragraph(p.0 as usize, p.1 as usize)),
            Err(e) => Err(e),
        },
        TypeKind::Password => match count_range(col_def, 8, 20) {
            Ok(p) => Ok(Plan::Password(p.0 as usize, p.1 as usize)),
            Err(e) => Err(e),
        },
        TypeKind::NumberWithFormat => match string_arg(col_def, ArgKey::Fmt) {
            Ok(s) => Ok(Plan::NumberWithFormat(s)),
            Err(e) => Err(e),
        },
        TypeKind::Geohash => match small_uint_arg(col_def, "precision"@) {
            Some(r) => Ok(Plan::Geohash(r)),
            None => Err(ArgError::Missing(ArgKey::Precision)),
        },
        TypeKind::DateTimeBefore => match datetime_arg(col_def, ArgKey::Dt) {
            Ok(t) => Ok(Plan::Before(t)),
            Err(e) => Err(e),
        },
        TypeKind::DateTimeAfter => match datetime_arg(col_def, ArgKey::Dt) {
            Ok(t) => Ok(Plan::After(t)),
            Err(e) => Err(e),
        },
        TypeKind::DateTimeBetween => match datetime_range_arg(col_def) {
            Ok(p) => Ok(Plan::Between(p.0, p.1)),
            Err(e) => Err(e),
        },
        TypeKind::Text(t) => Ok(Plan::Text(t)),
    }
}

/// What a plan needs of its parameters before any value is drawn.
pub open spec fn plan_ready(p: Plan) -> bool {
    match p {
        Plan::U32(a, b) => a <= b,
        Plan::U64(a, b) => a <= b,
        Plan::I32(a, b) => a <= b,
        Plan::I64(a, b) => a <= b,
        Plan::Sentence(a, b) => a < b,
        Plan::Paragraph(a, b) => a < b,
        Plan::Password(a, b) => a < b,
        Plan::Before(t) => in_era(t),
        Plan::After(t) => in_era(t),
        Plan::Between(s, e) => in_era(s) && in_era(e) && ts_le(s, e),
        _ => true,
    }
}

/// Whether an instant `(s, n)` may be drawn by a timestamp plan: within a
/// million minutes before or after its instant, or inside `[start, end]`
/// (the start itself where the span is under a minute). Nothing more is
/// claimed where a given instant is a leap second.
pub open spec fn drawn_fits(p: Plan, s: i64, n: u32) -> bool {
    match p {
        Plan::Before(t) => t.nanos < 1_000_000_000 ==> n == t.nanos && t.secs - 59_999_940 <= s <= t.secs - 60,
        Plan::After(t) => t.nanos < 1_000_000_000 ==> n == t.nanos && t.secs + 60 <= s <= t.secs + 59_999_940,
        Plan::Between(a, b) => if spans_minute(a, b) {
            a.nanos < 1_000_000_000 && b.nanos < 1_000_000_000 ==> n == a.nanos && a.secs <= s && s
                * 1_000_000_000 + n < b.secs * 1_000_000_000 + b.nanos
        } else {
            s == a.secs && n == a.nanos
        },
        _ => true,
    }
}

/// Whether `text` is the RFC 3339 text of an instant the plan may draw.
pub open spec fn dated_value(p: Plan, text: Seq<char>) -> bool {
    exists|s: i64, n: u32| #[trigger] rfc3339_text(s, n) == text && drawn_fits(p, s, n)
}

/// Whether `d` is `n` values that the plan can produce.
pub open spec fn fits(p: Plan, d: ColumnData, n: nat) -> bool {
    data_len(d) == n && match (p, d) {
        (Plan::U32(a, b), ColumnData::U32(v)) => forall|i: int| 0 <= i < v.len() ==> a <= #[trigger] v[i] <= b,
        (Plan::U64(a, b), ColumnData::U64(v)) => forall|i: int| 0 <= i < v.len() ==> a <= #[trigger] v[i] <= b,
        (Plan::I32(a, b), ColumnData::I32(v)) => forall|i: int| 0 <= i < v.len() ==> a <= #[trigger] v[i] <= b,
        (Plan::I64(a, b), ColumnData::I64(v)) => forall|i: int| 0 <= i < v.len() ==> a <= #[trigger] v[i] <= b,
        (Plan::Float { double }, ColumnData::Float { double: d2, .. }) => double == d2,
        (Plan::Boolean(r), ColumnData::Bool(v)) => (r == 0 ==> forall|i: int| 0 <= i < v.len() ==> !#[trigger] v[i])
            && (r == 255 ==> forall|i: int| 0 <= i < v.len() ==> #[trigger] v[i]),
        (Plan::Geohash(r), ColumnData::Text(v)) => forall|i: int| 0 <= i < v.len() ==> (#[trigger] v[i])@.len() == if r <= 32 { r as int } else { 32 },
        (Plan::Sentence(..), ColumnData::Text(v)) => forall|i: int|
            0 <= i < v.len() ==> (#[trigger] v[i])@.len() > 0 && v[i]@.last() == '.',
        (Plan::Paragraph(a, _), ColumnData::Text(v)) => a >= 1 ==> forall|i: int|
            0 <= i < v.len() ==> (#[trigger] v[i])@.len() > 0 && v[i]@.last() == '.',
        (Plan::Password(a, b), ColumnData::Text(v)) => forall|i: int|
            0 <= i < v.len() ==> a <= (#[trigger] v[i])@.len() < b,
        (Plan::NumberWithFormat(f), ColumnData::Text(v)) => forall|i: int|
            0 <= i < v.len() ==> numerified(f@, (#[trigger] v[i])@),
        (Plan::Before(_), ColumnData::Text(v)) => forall|i: int| 0 <= i < v.len() ==> dated_value(p, (#[trigger] v[i])@),
        (Plan::After(_), ColumnData::Text(v)) => forall|i: int| 0 <= i < v.len() ==> dated_value(p, (#[trigger] v[i])@),
        (Plan::Between(..), ColumnData::Text(v)) => forall|i: int| 0 <= i < v.len() ==> dated_value(p, (#[trigger] v[i])@),
        (Plan::Text(k), ColumnData::Text(v)) => forall|i: int| 0 <= i < v.len() ==> text_shape(k, (#[trigger] v[i])@),
        _ => false,
    }
}

/// Validates a column's arguments for a type kind.
pub fn resolve_plan(k: TypeKind, col_def: &ArgValue) -> (r: Result<Plan, ArgError>)
    ensures
        r == plan_of(k, *col_def),
        r matches Ok(p) ==> plan_ready(p),
{
    match k {
        TypeKind::U32 => match get_range_args(col_def, false, 0, u32::MAX as i128, 0, u32::MAX as i128) {
            Ok(p) => Ok(Plan::U32(p.0 as u32, p.1 as u32)),
            Err(e) => Err(e),
        },
        TypeKind::U64 => match get_range_args(col_def, false, 0, u64::MAX as i128, 0, u64::MAX as i128) {
            Ok(p) => Ok(Plan::U64(p.0 as u64, p.1 as u64)),
            Err(e) => Err(e),
        },
        TypeKind::I32 => match get_range_args(
            col_def,
            true,
            i32::MIN as i128,
            i32::MAX as i128,
            i32::MIN as i128,
            i32::MAX as i128,
        ) {
            Ok(p) => Ok(Plan::I32(p.0 as i32, p.1 as i32)),
            Err(e) => Err(e),
        },
        TypeKind::I64 => match get_range_args(
            col_def,
            true,
            i64::MIN as i128,
            i64::MAX as i128,
            i64::MIN as i128,
            i64::MAX as i128,
        ) {
            Ok(p) => Ok(Plan::I64(p.0 as i64, p.1 as i64)),
            Err(e) => Err(e),
        },
        TypeKind::F32 => Ok(Plan::Float { double: false }),
        TypeKind::F64 => Ok(Plan::Float { double: true }),
        TypeKind::Boolean => match get_args_u8(col_def, ArgKey::Ratio) {
            Ok(r) => Ok(Plan::Boolean(r)),
            Err(e) => Err(e),
        },
        TypeKind::Sentence => match resolve_counts(col_def, 3, 10) {
            Ok(p) => Ok(Plan::Sentence(p.0, p.1)),
            Err(e) => Err(e),
        },
        TypeKind::Paragraph => match resolve_counts(col_def, 3, 7) {
            Ok(p) => Ok(Plan::Paragraph(p.0, p.1)),
            Err(e) => Err(e),
        },
        TypeKind::Password => match resolve_counts(col_def, 8, 20) {
            Ok(p) => Ok(Plan::Password(p.0, p.1)),
            Err(e) => Err(e),
        },
        TypeKind::NumberWithFormat => match get_args_string(col_def, ArgKey::Fmt) {
            Ok(s) => Ok(Plan::NumberWithFormat(s)),
            Err(e) => Err(e),
        },
        TypeKind::Geohash => match get_args_u8(col_def, ArgKey::Precision) {
            Ok(r) => Ok(Plan::Geohash(r)),
            Err(e) => Err(e),
        },
        TypeKind::DateTimeBefore => match get_args_datetime(col_def, ArgKey::Dt) {
            Ok(t) => Ok(Plan::Before(t)),
            Err(e) => Err(e),
        },
        TypeKind::DateTimeAfter => match get_args_datetime(col_def, ArgKey::Dt) {
            Ok(t) => Ok(Plan::After(t)),
            Err(e) => Err(e),
        },
        TypeKind::DateTimeBetween => match get_args_datetimerange(col_def) {
            Ok(p) => {
                let (s, e) = p;
                Ok(Plan::Between(s, e))
            },
            Err(e) => Err(e),
        },
        TypeKind::Text(t) => Ok(Plan::Text(t)),
    }
}

fn resolve_counts(col_def: &ArgValue, ds: usize, de: usize) -> (r: Result<(usize, usize), ArgError>)
    ensures
        match count_range(*col_def, ds as int, de as int) {
            Ok(p) => r == Ok::<(usize, usize), ArgError>((p.0 as usize, p.1 as usize)),
            Err(e) => r == Err::<(usize, usize), ArgError>(e),
        },
        r matches Ok(p) ==> p.0 < p.1,
{
    match get_range_args(col_def, false, 0, usize::MAX as i128, ds as i128, de as i128) {
        Ok(p) => if p.0 < p.1 {
            Ok((p.0 as usize, p.1 as usize))
        } else if p.0 < usize::MAX as i128 {
            Ok((p.0 as usize, p.0 as usize + 1))
        } else {
            Err(ArgError::InvalidRange)
        },
        Err(e) => Err(e),
    }
}

/// Draws one timestamp of a dated plan, as RFC 3339 text.
fn draw_dated(p: &Plan) -> (r: String)
    requires
        p is Before || p is After || p is Between,
        plan_ready(*p),
    ensures
        dated_value(*p, r@),
{
    let drawn = match p {
        Plan::Before(t) => fake_datetime_before(t.secs, t.nanos),
        Plan::After(t) => fake_datetime_after(t.secs, t.nanos),
        Plan::Between(s, e) => {
            let span: i128 = (e.secs as i128 - s.secs as i128) * 1_000_000_000 + e.nanos as i128
                - s.nanos as i128;
            if span >= 60_000_000_000 {
                fake_datetime_between(s.secs, s.nanos, e.secs, e.nanos)
            } else {
                match instant_text(s.secs, s.nanos) {
                    Some(t) => Some((t, s.secs, s.nanos)),
                    None => None,
                }
            }
        },
        _ => None,
    };
    match drawn {
        Some(x) => {
            assert(rfc3339_text(x.1, x.2) == x.0@ && drawn_fits(*p, x.1, x.2));
            x.0
        },
        None => {
            assert(false);
            String::new()
        },
    }
}

/// Draws one text value of a plan whose values are text.
fn draw_text(p: &Plan) -> (r: String)
    requires
        plan_ready(*p),
        p is Sentence || p is Paragraph || p is Password || p is NumberWithFormat || p is Text,
    ensures
        *p matches Plan::Password(a, b) ==> a <= r@.len() < b,
        *p matches Plan::Sentence(..) ==> r@.len() > 0 && r@.last() == '.',
        *p matches Plan::Paragraph(a, _) ==> (a >= 1 ==> r@.len() > 0 && r@.last() == '.'),
        *p matches Plan::Text(k) ==> text_shape(k, r@),
        *p matches Plan::NumberWithFormat(f) ==> numerified(f@, r@),
{
    match p {
        Plan::Sentence(a, b) => fake_sentence(*a, *b),
        Plan::Paragraph(a, b) => fake_paragraph(*a, *b),
        Plan::Password(a, b) => fake_password(*a, *b),
        Plan::NumberWithFormat(f) => fake_number_with_format(f.as_str()),
        Plan::Text(t) => sample_text(*t),
        _ => String::new(),
    }
}

/// Draws `n` values of a plan, each independently.
pub fn generate_column(p: &Plan, n: usize) -> (r: ColumnData)
    requires
        plan_ready(*p),
    ensures
        fits(*p, r, n as nat),
{
    match p {
        Plan::U32(a, b) => {
            let mut v: Vec<u32> = Vec::new();
            for _i in 0..n
                invariant
                    v.len() == _i,
                    *a <= *b,
                    forall|j: int| 0 <= j < v.len() ==> *a <= #[trigger] v[j] <= *b,
            {
                v.push(random_in(*a as i128, *b as i128) as u32);
            }
            ColumnData::U32(v)
        },
        Plan::U64(a, b) => {
            let mut v: Vec<u64> = Vec::new();
            for _i in 0..n
                invariant
                    v.len() == _i,
                    *a <= *b,
                    forall|j: int| 0 <= j < v.len() ==> *a <= #[trigger] v[j] <= *b,
            {
                v.push(random_in(*a as i128, *b as i128) as u64);
            }
            ColumnData::U64(v)
        },
        Plan::I32(a, b) => {
            let mut v: Vec<i32> = Vec::new();
            for _i in 0..n
                invariant
                    v.len() == _i,
                    *a <= *b,
                    forall|j: int| 0 <= j < v.len() ==> *a <= #[trigger] v[j] <= *b,
            {
                v.push(random_in(*a as i128, *b as i128) as i32);
            }
            ColumnData::I32(v)
        },
        Plan::I64(a, b) => {
            let mut v: Vec<i64> = Vec::new();
            for _i in 0..n
                invariant
                    v.len() == _i,
                    *a <= *b,
                    forall|j: int| 0 <= j < v.len() ==> *a <= #[trigger] v[j] <= *b,
            {
                v.push(random_in(*a as i128, *b as i128) as i64);
            }
            ColumnData::I64(v)
        },
        Plan::Float { double } => ColumnData::Float { double: *double, rows: n },
        Plan::Boolean(ratio) => {
            let mut v: Vec<bool> = Vec::new();
            for _i in 0..n
                invariant
                    v.len() == _i,
                    *ratio == 0 ==> forall|j: int| 0 <= j < v.len() ==> !#[trigger] v[j],
                    *ratio == 255 ==> forall|j: int| 0 <= j < v.len() ==> #[trigger] v[j],
            {
                // true with probability ratio / 255
                v.push(random_in(0, 254) < *ratio as i128);
            }
            ColumnData::Bool(v)
        },
        Plan::Geohash(precision) => {
            let mut v: Vec<String> = Vec::new();
            for _i in 0..n
                invariant
                    v.len() == _i,
                    forall|j: int| 0 <= j < v.len() ==> (#[trigger] v[j])@.len() == if *precision <= 32 { *precision as int } else { 32 },
            {
                v.push(fake_geohash(*precision));
            }
            ColumnData::Text(v)
        },
        Plan::Before(_) | Plan::After(_) | Plan::Between(..) => {
            let mut v: Vec<String> = Vec::new();
            for _i in 0..n
                invariant
                    v.len() == _i,
                    p is Before || p is After || p is Between,
                    plan_ready(*p),
                    forall|j: int| 0 <= j < v.len() ==> dated_value(*p, (#[trigger] v[j])@),
            {
                v.push(draw_dated(p));
            }
            ColumnData::Text(v)
        },
        _ => {
            let mut v: Vec<String> = Vec::new();
            for _i in 0..n
                invariant
                    v.len() == _i,
                    plan_ready(*p),
                    p is Sentence || p is Paragraph || p is Password || p is NumberWithFormat || p is Text,
                    *p matches Plan::Password(a, b) ==> forall|j: int|
                        0 <= j < v.len() ==> a <= (#[trigger] v[j])@.len() < b,
                    *p matches Plan::Sentence(..) ==> forall|j: int|
                        0 <= j < v.len() ==> (#[trigger] v[j])@.len() > 0 && v[j]@.last() == '.',
                    *p matches Plan::Text(k) ==> forall|j: int| 0 <= j < v.len() ==> text_shape(k, (#[trigger] v[j])@),
                    *p matches Plan::Paragraph(a, _) ==> (a >= 1 ==> forall|j: int|
                        0 <= j < v.len() ==> (#[trigger] v[j])@.len() > 0 && v[j]@.last() == '.'),
                    *p matches Plan::NumberWithFormat(f) ==> forall|j: int|
                        0 <= j < v.len() ==> numerified(f@, (#[trigger] v[j])@),
            {
                v.push(draw_text(p));
            }
            ColumnData::Text(v)
        },
    }
}

/// What generating a column of kind `k` gives: the argument error, or `n`
/// values that fit the plan under the column's name.
pub open spec fn column_outcome(
    k: TypeKind,
    col_def: ArgValue,
    name: Seq<char>,
    n: nat,
    r: Result<Column, GenerateError>,
) -> bool {
    match plan_of(k, col_def) {
        Err(e) => r == Err::<Column, GenerateError>(GenerateError::InvalidArgument(e)),
        Ok(p) => r matches Ok(c) && c.name@ == name && fits(p, c.data, n),
    }
}

/// Generates a column of a known kind.
pub fn generate_kind_column(k: TypeKind, col_name: &str, no_rows: usize, col_def: &ArgValue) -> (r:
    Result<Column, GenerateError>)
    ensures
        column_outcome(k, *col_def, col_name@, no_rows as nat, r),
{
    let plan = match resolve_plan(k, col_def) {
        Ok(p) => p,
        Err(e) => return Err(GenerateError::InvalidArgument(e)),
    };
    let data = generate_column(&plan, no_rows);
    Ok(Column { name: col_name.to_owned(), data })
}

/// Generates the column `col_name` of `no_rows` values of the type named
/// `ty_name`, with the arguments that `col_def` carries.
pub fn create_series_from_type(ty_name: &str, col_name: &str, no_rows: usize, col_def: &ArgValue) -> (r:
    Result<Column, GenerateError>)
    ensures
        match kind_of(ty_name@) {
            None => r matches Err(GenerateError::UnsupportedType(s)) && s@ == ty_name@,
            Some(k) => column_outcome(k, *col_def, col_name@, no_rows as nat, r),
        },
{
    match type_kind(ty_name) {
        Some(k) => generate_kind_column(k, col_name, no_rows, col_def),
        None => Err(GenerateError::UnsupportedType(ty_name.to_owned())),
    }
}

/// The column definitions of a schema document.
pub open spec fn columns_of(doc: ArgValue) -> Option<Seq<ArgValue>> {
    match field_of(doc, "columns"@) {
        Some(ArgValue::Array(cols)) => Some(cols@),
        _ => None,
    }
}

/// A string member of a column definition; empty where absent.
pub open spec fn text_of(col: ArgValue, key: Seq<char>) -> Seq<char> {
    match field_of(col, key) {
        Some(ArgValue::Str(s)) => s@,
        _ => Seq::empty(),
    }
}

/// Whether column `j` is the first whose type name is not listed.
pub open spec fn first_unlisted(cols: Seq<ArgValue>, j: int) -> bool {
    &&& 0 <= j < cols.len()
    &&& !is_listed(text_of(cols[j], "type"@))
    &&& forall|i: int| 0 <= i < j ==> is_listed(#[trigger] text_of(cols[i], "type"@))
}

/// Whether column `c` is `n` values generated for the definition `col`.
pub open spec fn column_fits(col: ArgValue, c: Column, n: nat) -> bool {
    &&& c.name@ == text_of(col, "name"@)
    &&& data_len(c.data) == n
    &&& column_plan(col) matches Some(Ok(p)) && fits(p, c.data, n)
}

/// What a column definition's type makes of its arguments; nothing where
/// the type name is not listed.
pub open spec fn column_plan(col: ArgValue) -> Option<Result<Plan, ArgError>> {
    match kind_of(text_of(col, "type"@)) {
        Some(k) => Some(plan_of(k, col)),
        None => None,
    }
}

/// Whether every column's arguments are valid for its type.
pub open spec fn all_valid(cols: Seq<ArgValue>) -> bool {
    forall|i: int| 0 <= i < cols.len() ==> (#[trigger] column_plan(cols[i]) matches Some(Ok(_)))
}

/// Whether every column before `j` has valid arguments for its type.
pub open spec fn valid_before(cols: Seq<ArgValue>, j: int) -> bool {
    forall|i: int| 0 <= i < j ==> (#[trigger] column_plan(cols[i]) matches Some(Ok(_)))
}

fn text_field(col: &ArgValue, key: &str) -> (r: String)
    ensures
        r@ == text_of(*col, key@),
{
    match col.get(key) {
        Some(ArgValue::Str(s)) => s.clone(),
        _ => String::new(),
    }
}

/// Generates a table from a parsed schema document: one column of
/// `no_rows` values for each entry of its `columns` array, in order.
///
/// Every type name is looked up before any value is drawn: the first
/// unlisted name is reported. Otherwise the first column, in schema order,
/// whose arguments are refused gives the error, and no table is returned.
pub fn generate_from_json(doc: &ArgValue, no_rows: usize) -> (r: Result<Table, GenerateError>)
    ensures
        columns_of(*doc) is None ==> r == Err::<Table, GenerateError>(GenerateError::MissingColumns),
        r matches Ok(t) ==> t.has_rows(no_rows as nat),
        columns_of(*doc) matches Some(cols) ==> ((exists|j: int|
            0 <= j < cols.len() && !is_listed(#[trigger] text_of(cols[j], "type"@)))
            <==> r matches Err(GenerateError::UnsupportedType(_))),
        columns_of(*doc) matches Some(cols) ==> (r matches Err(GenerateError::UnsupportedType(s))
            ==> (exists|j: int| first_unlisted(cols, j) && s@ == text_of(cols[j], "type"@))),
        columns_of(*doc) matches Some(cols) ==> (r matches Ok(t) ==> (t.columns.len() == cols.len()
            && forall|i: int| 0 <= i < cols.len() ==> column_fits(cols[i], #[trigger] t.columns[i], no_rows as nat))),
        columns_of(*doc) matches Some(cols) ==> (r matches Err(GenerateError::InvalidArgument(e))
            ==> (exists|i: int| 0 <= i < cols.len() && valid_before(cols, i)
            && #[trigger] column_plan(cols[i]) == Some(Err::<Plan, ArgError>(e)))),
        columns_of(*doc) is Some ==> r != Err::<Table, GenerateError>(GenerateError::MissingColumns),
        columns_of(*doc) matches Some(cols) ==> ((forall|j: int|
            0 <= j < cols.len() ==> is_listed(#[trigger] text_of(cols[j], "type"@))) && all_valid(cols)
            ==> r is Ok),
{
    let cols = match doc.get("columns") {
        Some(ArgValue::Array(cols)) => cols,
        _ => return Err(GenerateError::MissingColumns),
    };
    let mut kinds: Vec<TypeKind> = Vec::new();
    let mut i: usize = 0;
    while i < cols.len()
        invariant
            columns_of(*doc) == Some(cols@),
            i <= cols.len(),
            kinds.len() == i,
            forall|j: int| 0 <= j < i ==> kind_of(text_of(cols@[j], "type"@)) == Some(#[trigger] kinds[j]),
            forall|j: int| 0 <= j < i ==> is_listed(#[trigger] text_of(cols@[j], "type"@)),
        decreases cols.len() - i,
    {
        let ty_name = text_field(&cols[i], "type");
        match type_kind(ty_name.as_str()) {
            Some(k) => kinds.push(k),
            None => {
                assert(!is_listed(text_of(cols@[i as int], "type"@)));
                assert(first_unlisted(cols@, i as int));
                assert(columns_of(*doc)->Some_0 == cols@);
                assert(exists|j: int| 0 <= j < cols@.len() && !is_listed(#[trigger] text_of(cols@[j], "type"@)));
                return Err(GenerateError::UnsupportedType(ty_name));
            },
        }
        i = i + 1;
    }
    let mut columns: Vec<Column> = Vec::new();
    let mut i: usize = 0;
    while i < cols.len()
        invariant
            columns_of(*doc) == Some(cols@),
            i <= cols.len(),
            kinds.len() == cols.len(),
            columns.len() == i,
            forall|j: int| 0 <= j < cols.len() ==> kind_of(text_of(cols@[j], "type"@)) == Some(#[trigger] kinds[j]),
            forall|j: int| 0 <= j < cols.len() ==> is_listed(#[trigger] text_of(cols@[j], "type"@)),
            forall|j: int| 0 <= j < i ==> column_fits(cols@[j], #[trigger] columns[j], no_rows as nat),
        decreases cols.len() - i,
    {
        let name = text_field(&cols[i], "name");
        let k = kinds[i];
        let c = generate_kind_column(k, name.as_str(), no_rows, &cols[i]);
        match c {
            Ok(c) => {
                proof {
                    assert(kind_of(text_of(cols@[i as int], "type"@)) == Some(k));
                    assert(column_plan(cols@[i as int]) == Some(plan_of(k, cols@[i as int])));
                }
                columns.push(c);
            },
            Err(e) => {
                proof {
                    assert(kind_of(text_of(cols@[i as int], "type"@)) == Some(k));
                    assert(column_plan(cols@[i as int]) == Some(plan_of(k, cols@[i as int])));
                    assert(columns_of(*doc)->Some_0 == cols@);
                    assert(valid_before(cols@, i as int)) by {
                        assert forall|j: int| 0 <= j < i implies (#[trigger] column_plan(cols@[j]) matches Some(
                            Ok(_),
                        )) by {
                            assert(column_fits(cols@[j], columns[j], no_rows as nat));
                        }
                    }
                    assert(column_plan(cols@[i as int]) == Some(Err::<Plan, ArgError>(plan_of(k, cols@[i as int])->Err_0)));
                }
                return Err(e);
            },
        }
        i = i + 1;
    }
    Ok(Table { columns })
}

} // verus!
