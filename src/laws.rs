use vstd::prelude::*;
use crate::value::ArgValue;
use crate::args::{ArgError, ArgKey, arg_of, range_args, range_bound};
use crate::catalogue::TypeKind;
use crate::generate::{Plan, plan_of};

verus! {

/// Whether a type kind draws integers, and if so whether they are signed and
/// which values its type holds.
pub open spec fn int_domain(k: TypeKind) -> Option<(bool, int, int)> {
    match k {
        TypeKind::U32 => Some((false, 0, u32::MAX as int)),
        TypeKind::U64 => Some((false, 0, u64::MAX as int)),
        TypeKind::I32 => Some((true, i32::MIN as int, i32::MAX as int)),
        TypeKind::I64 => Some((true, i64::MIN as int, i64::MAX as int)),
        _ => None,
    }
}

/// A range whose resolved start lies after its resolved end is refused with
/// an invalid-range error, whatever the defaults.
pub proof fn lemma_inverted_range_refused(
    col_def: ArgValue,
    signed: bool,
    lo: int,
    hi: int,
    default_start: int,
    default_end: int,
    s: int,
    e: int,
)
    requires
        range_bound(col_def, "start"@, signed, lo, hi, default_start) == Ok::<int, ArgError>(s),
        range_bound(col_def, "end"@, signed, lo, hi, default_end) == Ok::<int, ArgError>(e),
        s > e,
    ensures
        range_args(col_def, signed, lo, hi, default_start, default_end) == Err::<(int, int), ArgError>(
            ArgError::InvalidRange,
        ),
{
}

/// An integer column whose range bounds read as a start after the end is
/// refused with an invalid-range error before any value is drawn.
pub proof fn lemma_integer_column_inverted_range(k: TypeKind, col_def: ArgValue, s: int, e: int)
    requires
        int_domain(k) matches Some(d) && range_bound(col_def, "start"@, d.0, d.1, d.2, d.1)
            == Ok::<int, ArgError>(s) && range_bound(col_def, "end"@, d.0, d.1, d.2, d.2) == Ok::<
            int,
            ArgError,
        >(e),
        s > e,
    ensures
        plan_of(k, col_def) == Err::<Plan, ArgError>(ArgError::InvalidRange),
{
}

/// A boolean column takes no default ratio: without one it is refused.
pub proof fn lemma_ratio_required(col_def: ArgValue)
    requires
        arg_of(col_def, "ratio"@) is None,
    ensures
        plan_of(TypeKind::Boolean, col_def) == Err::<Plan, ArgError>(ArgError::Missing(ArgKey::Ratio)),
{
}

} // verus!
