use vstd::prelude::*;
use crate::text::same_text;

verus! {

/// A loosely typed argument value, as found in a schema document.
///
/// Numbers keep their canonical decimal text, so that each consumer parses
/// them into the width it needs.
#[derive(Debug)]
pub enum ArgValue {
    Null,
    Bool(bool),
    Number(String),
    Str(String),
    Array(Vec<ArgValue>),
    Object(Vec<(String, ArgValue)>),
}

/// The value of the first entry whose key is `key`.
pub open spec fn find_entry(entries: Seq<(String, ArgValue)>, key: Seq<char>) -> Option<ArgValue>
    decreases entries.len(),
{
    if entries.len() == 0 {
        None
    } else if entries[0].0@ == key {
        Some(entries[0].1)
    } else {
        find_entry(entries.drop_first(), key)
    }
}

/// The member `key` of an object; nothing for any other kind of value.
pub open spec fn field_of(v: ArgValue, key: Seq<char>) -> Option<ArgValue> {
    match v {
        ArgValue::Object(entries) => find_entry(entries@, key),
        _ => None,
    }
}

/// `field_of` through an optional value.
pub open spec fn field_opt(v: Option<ArgValue>, key: Seq<char>) -> Option<ArgValue> {
    match v {
        Some(x) => field_of(x, key),
        None => None,
    }
}

/// What a borrowed lookup result stands for.
pub open spec fn found(r: Option<&ArgValue>) -> Option<ArgValue> {
    match r {
        Some(x) => Some(*x),
        None => None,
    }
}

impl ArgValue {
    /// Looks up the member `key` of an object.
    pub fn get(&self, key: &str) -> (r: Option<&ArgValue>)
        ensures
            found(r) == field_of(*self, key@),
    {
        match self {
            ArgValue::Object(entries) => {
                let mut i: usize = 0;
                assert(entries@.subrange(0, entries.len() as int) =~= entries@);
                while i < entries.len()
                    invariant
                        i <= entries.len(),
                        field_of(*self, key@) == find_entry(entries@, key@),
                        find_entry(entries@, key@) == find_entry(
                            entries@.subrange(i as int, entries.len() as int),
                            key@,
                        ),
                    decreases entries.len() - i,
                {
                    let e = &entries[i];
                    let ghost rest = entries@.subrange(i as int, entries.len() as int);
                    assert(rest[0] == entries@[i as int]);
                    if same_text(e.0.as_str(), key) {
                        assert(find_entry(rest, key@) == Some(rest[0].1));
                        return Some(&e.1);
                    }
                    assert(rest.drop_first() =~= entries@.subrange(
                        i as int + 1,
                        entries.len() as int,
                    ));
                    i = i + 1;
                }
                None
            },
            _ => None,
        }
    }
}

} // verus!
