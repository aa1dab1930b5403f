use vstd::prelude::*;
use crate::text::chars_of;

verus! {

pub open spec fn is_digit(c: char) -> bool {
    '0' <= c && c <= '9'
}

pub open spec fn all_digits(s: Seq<char>) -> bool {
    forall|i: int| 0 <= i < s.len() ==> is_digit(#[trigger] s[i])
}

/// The value of a run of decimal digits, most significant first.
pub open spec fn digits_value(s: Seq<char>) -> nat
    decreases s.len(),
{
    if s.len() == 0 {
        0
    } else {
        (digits_value(s.drop_last()) * 10 + (s.last() as int - '0' as int)) as nat
    }
}

/// An integer written in decimal: an optional sign, then one or more ASCII
/// digits. A minus sign is read only where `signed` holds.
pub open spec fn decimal_value(s: Seq<char>, signed: bool) -> Option<int> {
    if s.len() > 0 && (s[0] == '+' || (signed && s[0] == '-')) {
        let d = s.drop_first();
        if d.len() > 0 && all_digits(d) {
            Some(
                if s[0] == '-' {
                    -(digits_value(d) as int)
                } else {
                    digits_value(d) as int
                },
            )
        } else {
            None
        }
    } else if s.len() > 0 && all_digits(s) {
        Some(digits_value(s) as int)
    } else {
        None
    }
}

/// The integer written in `s`, where it lies within `[lo, hi]`.
pub open spec fn decimal_in(s: Seq<char>, signed: bool, lo: int, hi: int) -> Option<int> {
    match decimal_value(s, signed) {
        Some(v) => if lo <= v && v <= hi {
            Some(v)
        } else {
            None
        },
        None => None,
    }
}

pub const LIMIT: u128 = 18446744073709551616;

proof fn lemma_digits_prefix(s: Seq<char>, k: int)
    requires
        all_digits(s),
        0 <= k <= s.len(),
    ensures
        digits_value(s.take(k)) <= digits_value(s),
    decreases s.len(),
{
    if k < s.len() {
        let p = s.drop_last();
        assert(s.take(k) =~= p.take(k));
        assert(is_digit(s[s.len() - 1]));
        lemma_digits_prefix(p, k);
    } else {
        assert(s.take(k) =~= s);
    }
}

/// Reads a decimal integer as `str::parse` reads one into an integer type
/// whose values are `[lo, hi]`.
pub fn parse_decimal(s: &str, signed: bool, lo: i128, hi: i128) -> (r: Option<i128>)
    requires
        -(LIMIT as int) <= lo,
        hi <= LIMIT as int,
    ensures
        r == (match decimal_in(s@, signed, lo as int, hi as int) {
            Some(v) => Some(v as i128),
            None => None::<i128>,
        }),
{
    let cs = chars_of(s);
    let n = cs.len();
    if n == 0 {
        return None;
    }
    let negative = signed && cs[0] == '-';
    let start: usize = if cs[0] == '+' || negative { 1 } else { 0 };
    if start == n {
        assert(s@.drop_first().len() == 0);
        return None;
    }
    let ghost d = cs@.subrange(start as int, n as int);
    assert(start == 1 ==> d =~= s@.drop_first());
    assert(start == 0 ==> d =~= s@);
    assert(decimal_value(s@, signed) == if all_digits(d) {
        Some(if negative { -(digits_value(d) as int) } else { digits_value(d) as int })
    } else {
        None::<int>
    });
    let mut acc: u128 = 0;
    let mut i: usize = start;
    while i < n
        invariant
            cs@ == s@,
            n == cs.len(),
            start <= i <= n,
            d == cs@.subrange(start as int, n as int),
            all_digits(d.take(i - start)),
            acc == digits_value(d.take(i - start)),
            acc <= LIMIT,
            decimal_value(s@, signed) == if all_digits(d) {
                Some(if negative { -(digits_value(d) as int) } else { digits_value(d) as int })
            } else {
                None::<int>
            },
            -(LIMIT as int) <= lo,
            hi <= LIMIT as int,
        decreases n - i,
    {
        let c = cs[i];
        if !('0' <= c && c <= '9') {
            assert(!is_digit(d[i - start]));
            assert(!all_digits(d));
            return None;
        }
        let ghost j = i - start;
        assert(d.take(j + 1).drop_last() =~= d.take(j));
        assert(d.take(j + 1).last() == c);
        assert(all_digits(d.take(j + 1))) by {
            assert forall|k: int| 0 <= k < j + 1 implies is_digit(#[trigger] d.take(j + 1)[k]) by {
                if k < j {
                    assert(d.take(j + 1)[k] == d.take(j)[k]);
                }
            }
        }
        let dv = (c as u32 - '0' as u32) as u128;
        acc = acc * 10 + dv;
        assert(acc == digits_value(d.take(j + 1)));
        i = i + 1;
        if acc > LIMIT {
            proof {
                if all_digits(d) {
                    lemma_digits_prefix(d, i - start);
                    assert(digits_value(d) > LIMIT);
                }
            }
            return None;
        }
    }
    assert(d.take(n - start) =~= d);
    let v: i128 = if negative { -(acc as i128) } else { acc as i128 };
    if lo <= v && v <= hi {
        Some(v)
    } else {
        None
    }
}

} // verus!
