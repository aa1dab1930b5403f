use vstd::prelude::*;
use crate::value::{ArgValue, field_of, field_opt, found};
use crate::num::{decimal_in, parse_decimal, LIMIT};
use crate::sample::{parse_rfc3339, rfc3339_instant, valid_instant, EARLIEST_SECS, LATEST_SECS};

verus! {

/// The named arguments that a column can carry besides its range.
#[derive(Debug, Clone, Copy, PartialEq, Eq)]
pub enum ArgKey {
    Ratio,
    Fmt,
    Precision,
    Dt,
    Start,
    End,
}

/// The key under which an argument is stored.
pub open spec fn key_name(k: ArgKey) -> Seq<char> {
    match k {
        ArgKey::Ratio => "ratio"@,
        ArgKey::Fmt => "fmt"@,
        ArgKey::Precision => "precision"@,
        ArgKey::Dt => "dt"@,
        ArgKey::Start => "start"@,
        ArgKey::End => "end"@,
    }
}

impl ArgKey {
    /// The key under which this argument is stored.
    pub fn as_str(self) -> (r: &'static str)
        ensures
            r@ == key_name(self),
    {
        match self {
            ArgKey::Ratio => "ratio",
            ArgKey::Fmt => "fmt",
            ArgKey::Precision => "precision",
            ArgKey::Dt => "dt",
            ArgKey::Start => "start",
            ArgKey::End => "end",
        }
    }
}

/// Why a column's arguments were refused.
#[derive(Debug, PartialEq, Eq)]
pub enum ArgError {
    /// The named argument is absent or of the wrong kind.
    Missing(ArgKey),
    /// A range bound is neither a number nor a numeric string of the
    /// column's type.
    BadRangeValue,
    /// The range's start lies after its end, or the range is empty where
    /// the type needs at least one value.
    InvalidRange,
    /// The named argument is absent or not an RFC 3339 timestamp.
    InvalidTimestamp(ArgKey),
}

/// An instant: whole seconds since the Unix epoch in UTC and the nanoseconds
/// past that second (a leap second reads as nanoseconds past 10^9).
#[derive(Debug, Clone, Copy, PartialEq, Eq)]
pub struct Timestamp {
    pub secs: i64,
    pub nanos: u32,
}

/// Whether `a` is no later than `b`.
pub open spec fn ts_le(a: Timestamp, b: Timestamp) -> bool {
    a.secs < b.secs || (a.secs == b.secs && a.nanos <= b.nanos)
}

/// The argument `key` of a column definition.
pub open spec fn arg_of(col_def: ArgValue, key: Seq<char>) -> Option<ArgValue> {
    field_opt(field_of(col_def, "args"@), key)
}

/// A string argument: present, and a string.
pub open spec fn string_arg(col_def: ArgValue, key: ArgKey) -> Result<String, ArgError> {
    match arg_of(col_def, key_name(key)) {
        Some(ArgValue::Str(s)) => Ok(s),
        _ => Err(ArgError::Missing(key)),
    }
}

/// A small unsigned argument: a number from 0 to 255.
pub open spec fn small_uint_arg(col_def: ArgValue, key: Seq<char>) -> Option<u8> {
    match arg_of(col_def, key) {
        Some(ArgValue::Number(t)) => match decimal_in(t@, false, 0, 255) {
            Some(v) => Some(v as u8),
            None => None,
        },
        _ => None,
    }
}

/// The value of a range bound, read into an integer type whose values are
/// `[lo, hi]`.
pub open spec fn bound_value(v: ArgValue, signed: bool, lo: int, hi: int) -> Option<int> {
    match v {
        ArgValue::Str(s) => decimal_in(s@, signed, lo, hi),
        ArgValue::Number(t) => decimal_in(t@, signed, lo, hi),
        _ => None,
    }
}

/// One bound of `args.range`: its value where present, `default` where absent.
pub open spec fn range_bound(
    col_def: ArgValue,
    key: Seq<char>,
    signed: bool,
    lo: int,
    hi: int,
    default: int,
) -> Result<int, ArgError> {
    match field_opt(arg_of(col_def, "range"@), key) {
        None => Ok(default),
        Some(v) => match bound_value(v, signed, lo, hi) {
            Some(x) => Ok(x),
            None => Err(ArgError::BadRangeValue),
        },
    }
}

/// The range `args.range.start ..= args.range.end` of a column, with
/// defaults for absent bounds; refused where start exceeds end.
pub open spec fn range_args(
    col_def: ArgValue,
    signed: bool,
    lo: int,
    hi: int,
    default_start: int,
    default_end: int,
) -> Result<(int, int), ArgError> {
    match range_bound(col_def, "start"@, signed, lo, hi, default_start) {
        Err(e) => Err(e),
        Ok(s) => match range_bound(col_def, "end"@, signed, lo, hi, default_end) {
            Err(e) => Err(e),
            Ok(e) => if s <= e {
                Ok((s, e))
            } else {
                Err(ArgError::InvalidRange)
            },
        },
    }
}

/// A timestamp argument, or why there is none.
pub open spec fn datetime_arg(col_def: ArgValue, key: ArgKey) -> Result<Timestamp, ArgError> {
    match timestamp_arg(col_def, key_name(key)) {
        Some(t) => Ok(t),
        None => Err(ArgError::InvalidTimestamp(key)),
    }
}

/// Whether an instant lies within the years that RFC 3339 can write.
pub open spec fn in_era(t: Timestamp) -> bool {
    EARLIEST_SECS <= t.secs <= LATEST_SECS && valid_instant(t.secs, t.nanos)
}

/// The timestamp range `args.start ..= args.end`, refused where start is
/// after end.
pub open spec fn datetime_range_arg(col_def: ArgValue) -> Result<(Timestamp, Timestamp), ArgError> {
    match datetime_arg(col_def, ArgKey::Start) {
        Err(e) => Err(e),
        Ok(s) => match datetime_arg(col_def, ArgKey::End) {
            Err(e) => Err(e),
            Ok(e) => if ts_le(s, e) {
                Ok((s, e))
            } else {
                Err(ArgError::InvalidRange)
            },
        },
    }
}

/// A timestamp argument.
pub open spec fn timestamp_arg(col_def: ArgValue, key: Seq<char>) -> Option<Timestamp> {
    match arg_of(col_def, key) {
        Some(ArgValue::Str(s)) => match rfc3339_instant(s@) {
            Some(p) => Some(Timestamp { secs: p.0, nanos: p.1 }),
            None => None,
        },
        _ => None,
    }
}

fn get_arg<'a>(col_def: &'a ArgValue, key: &str) -> (r: Option<&'a ArgValue>)
    ensures
        found(r) == arg_of(*col_def, key@),
{
    match col_def.get("args") {
        Some(a) => a.get(key),
        None => None,
    }
}

/// Reads the string argument `key`.
pub fn get_args_string(col_def: &ArgValue, key: ArgKey) -> (r: Result<String, ArgError>)
    ensures
        r == string_arg(*col_def, key),
{
    match get_arg(col_def, key.as_str()) {
        Some(ArgValue::Str(s)) => Ok(s.clone()),
        _ => Err(ArgError::Missing(key)),
    }
}

/// Reads the small unsigned argument `key`: a number from 0 to 255; any
/// other value is refused as missing.
pub fn get_args_u8(col_def: &ArgValue, key: ArgKey) -> (r: Result<u8, ArgError>)
    ensures
        r == match small_uint_arg(*col_def, key_name(key)) {
            Some(v) => Ok::<u8, ArgError>(v),
            None => Err(ArgError::Missing(key)),
        },
{
    match get_arg(col_def, key.as_str()) {
        Some(ArgValue::Number(t)) => match parse_decimal(t.as_str(), false, 0, 255) {
            Some(v) => Ok(v as u8),
            None => Err(ArgError::Missing(key)),
        },
        _ => Err(ArgError::Missing(key)),
    }
}

fn get_bound(
    col_def: &ArgValue,
    key: &str,
    signed: bool,
    lo: i128,
    hi: i128,
    default: i128,
) -> (r: Result<i128, ArgError>)
    requires
        -(LIMIT as int) <= lo,
        hi <= LIMIT as int,
        lo <= default <= hi,
    ensures
        r matches Ok(x) ==> lo <= x <= hi,
        match range_bound(*col_def, key@, signed, lo as int, hi as int, default as int) {
            Ok(x) => r == Ok::<i128, ArgError>(x as i128),
            Err(e) => r == Err::<i128, ArgError>(e),
        },
{
    let v = match get_arg(col_def, "range") {
        Some(range) => range.get(key),
        None => None,
    };
    match v {
        None => Ok(default),
        Some(b) => {
            let parsed = match b {
                ArgValue::Str(s) => parse_decimal(s.as_str(), signed, lo, hi),
                ArgValue::Number(t) => parse_decimal(t.as_str(), signed, lo, hi),
                _ => None,
            };
            match parsed {
                Some(x) => Ok(x),
                None => Err(ArgError::BadRangeValue),
            }
        },
    }
}

/// Reads the range `args.range.start ..= args.range.end` for an integer type
/// whose values are `[lo, hi]`; an absent bound takes its default, and each
/// present bound is a number or a numeric string.
pub fn get_range_args(
    col_def: &ArgValue,
    signed: bool,
    lo: i128,
    hi: i128,
    default_start: i128,
    default_end: i128,
) -> (r: Result<(i128, i128), ArgError>)
    requires
        -(LIMIT as int) <= lo,
        hi <= LIMIT as int,
        lo <= default_start <= hi,
        lo <= default_end <= hi,
    ensures
        r matches Ok(p) ==> lo <= p.0 <= p.1 <= hi,
        match range_args(*col_def, signed, lo as int, hi as int, default_start as int, default_end as int) {
            Ok(p) => r == Ok::<(i128, i128), ArgError>((p.0 as i128, p.1 as i128)),
            Err(e) => r == Err::<(i128, i128), ArgError>(e),
        },
{
    let start = match get_bound(col_def, "start", signed, lo, hi, default_start) {
        Ok(x) => x,
        Err(e) => return Err(e),
    };
    let end = match get_bound(col_def, "end", signed, lo, hi, default_end) {
        Ok(x) => x,
        Err(e) => return Err(e),
    };
    if start <= end {
        Ok((start, end))
    } else {
        Err(ArgError::InvalidRange)
    }
}

/// Reads the timestamp argument `key`, an RFC 3339 string.
pub fn get_args_datetime(col_def: &ArgValue, key: ArgKey) -> (r: Result<Timestamp, ArgError>)
    ensures
        r == datetime_arg(*col_def, key),
        r matches Ok(t) ==> in_era(t),
{
    match get_arg(col_def, key.as_str()) {
        Some(ArgValue::Str(s)) => match parse_rfc3339(s.as_str()) {
            Some(p) => Ok(Timestamp { secs: p.0, nanos: p.1 }),
            None => Err(ArgError::InvalidTimestamp(key)),
        },
        _ => Err(ArgError::InvalidTimestamp(key)),
    }
}

/// Reads the timestamp range `args.start ..= args.end`.
pub fn get_args_datetimerange(col_def: &ArgValue) -> (r: Result<(Timestamp, Timestamp), ArgError>)
    ensures
        r == datetime_range_arg(*col_def),
        r matches Ok(p) ==> in_era(p.0) && in_era(p.1),
{
    let start = match get_args_datetime(col_def, ArgKey::Start) {
        Ok(t) => t,
        Err(e) => return Err(e),
    };
    let end = match get_args_datetime(col_def, ArgKey::End) {
        Ok(t) => t,
        Err(e) => return Err(e),
    };
    if start.secs < end.secs || (start.secs == end.secs && start.nanos <= end.nanos) {
        Ok((start, end))
    } else {
        Err(ArgError::InvalidRange)
    }
}

} // verus!
