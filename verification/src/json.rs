//! A generic JSON value, as decoded from a response body.
//!
//! The envelope decoder works on this type alone.  Numbers are carried as
//! [`serde_json::Number`] values, untouched: the library never reads a
//! number's magnitude, it only moves numbers from the envelope into typed
//! results.

use vstd::prelude::*;

verus! {

/// `serde_json::Number` is carried through the library opaquely; nothing is
/// assumed about what a number value holds.
#[verifier::external_type_specification]
#[verifier::external_body]
pub struct ExNumber(serde_json::Number);

/// Relies on the `Clone` impl that `serde_json` derives for `Number`, which
/// copies the value unchanged.
pub assume_specification[ <serde_json::Number as Clone>::clone ](
    n: &serde_json::Number,
) -> (r: serde_json::Number)
    ensures
        r == *n,
;

/// A generic JSON value.
///
/// An object is kept as its sequence of key/value entries, in the order in
/// which they were handed to the library; [`Json::get`] finds the first entry
/// with a matching key.
#[derive(Debug)]
pub enum Json {
    Null,
    Bool(bool),
    Num(serde_json::Number),
    Str(String),
    Arr(Vec<Json>),
    Obj(Vec<(String, Json)>),
}

impl Json {
    /// The value of the first entry of `entries` whose key reads `key`.
    pub open spec fn entries_get(entries: Seq<(String, Json)>, key: Seq<char>) -> Option<Json>
        decreases entries.len(),
    {
        if entries.len() == 0 {
            None
        } else if entries[0].0@ == key {
            Some(entries[0].1)
        } else {
            Self::entries_get(entries.drop_first(), key)
        }
    }

    /// The value held under `key`: the first matching entry of an object,
    /// nothing for any other kind of value.
    pub open spec fn spec_get(self, key: Seq<char>) -> Option<Json> {
        match self {
            Json::Obj(entries) => Self::entries_get(entries@, key),
            _ => None,
        }
    }

    /// Look up `key` in an object value; `None` on any other kind of value
    /// and on an object without such a key.
    pub fn get<'a>(&'a self, key: &str) -> (r: Option<&'a Json>)
        ensures
            match r {
                Some(v) => self.spec_get(key@) == Some(*v),
                None => self.spec_get(key@) is None,
            },
    {
        match self {
            Json::Obj(entries) => {
                match find_key(entries, key) {
                    Some(i) => Some(&entries[i].1),
                    None => None,
                }
            },
            _ => None,
        }
    }
}

/// The position of the first entry of `entries` whose key reads `key`.
pub fn find_key(entries: &Vec<(String, Json)>, key: &str) -> (r: Option<usize>)
    ensures
        match r {
            Some(i) => i < entries@.len() && entries@[i as int].0@ == key@
                && Json::entries_get(entries@, key@) == Some(entries@[i as int].1),
            None => Json::entries_get(entries@, key@) is None,
        },
{
    let want: String = key.to_owned();
    let n = entries.len();
    proof {
        assert(entries@.subrange(0, n as int) =~= entries@);
    }
    let mut i: usize = 0;
    while i < n
        invariant
            i <= n,
            n == entries@.len(),
            want@ == key@,
            Json::entries_get(entries@, key@) == Json::entries_get(
                entries@.subrange(i as int, n as int),
                key@,
            ),
        decreases n - i,
    {
        proof {
            assert(entries@.subrange(i as int, n as int).drop_first()
                =~= entries@.subrange(i + 1, n as int));
            assert(entries@.subrange(i as int, n as int)[0] == entries@[i as int]);
        }
        if entries[i].0 == want {
            return Some(i);
        }
        i = i + 1;
    }
    None
}

} // verus!
