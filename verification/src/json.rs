//! A JSON value, as the response normalizer reads one.
//!
//! The two upstream response schemas are read through four operations:
//! object field lookup, string extraction, unsigned-integer extraction and
//! the first element of an array.  A number keeps its exact value only
//! when it is a non-negative integer that fits 64 bits — the only numeric
//! shape the normalizer reads; every other number is carried as
//! [`Json::OtherNum`] and reads as absent, exactly as a type mismatch does.

use vstd::prelude::*;
use vstd::string::StrSliceExecFns;

verus! {

/// A parsed JSON value.
pub enum Json {
    Null,
    Bool(bool),
    Num(u64),
    OtherNum,
    Str(String),
    Arr(Vec<Json>),
    Obj(Vec<(String, Json)>),
}

/// The value under `key`: first match wins.
pub open spec fn spec_lookup(entries: Seq<(String, Json)>, key: Seq<char>) -> Option<Json>
    decreases entries.len(),
{
    if entries.len() == 0 {
        None
    } else if entries[0].0@ == key {
        Some(entries[0].1)
    } else {
        spec_lookup(entries.skip(1), key)
    }
}

impl Json {
    /// The value under `key` when this is an object.
    pub open spec fn spec_get(self, key: Seq<char>) -> Option<Json> {
        match self {
            Json::Obj(entries) => spec_lookup(entries@, key),
            _ => None,
        }
    }

    /// The characters of this value when it is a string.
    pub open spec fn spec_as_str(self) -> Option<Seq<char>> {
        match self {
            Json::Str(s) => Some(s@),
            _ => None,
        }
    }

    /// The value of this value when it is an unsigned integer.
    pub open spec fn spec_as_u64(self) -> Option<u64> {
        match self {
            Json::Num(n) => Some(n),
            _ => None,
        }
    }

    /// The first element when this is a non-empty array.
    pub open spec fn spec_first(self) -> Option<Json> {
        match self {
            Json::Arr(items) => if items@.len() > 0 {
                Some(items@[0])
            } else {
                None
            },
            _ => None,
        }
    }
}

/// Character-for-character equality of two string slices.
fn str_eq(a: &str, b: &str) -> (r: bool)
    ensures
        r == (a@ == b@),
{
    let n = a.unicode_len();
    if n != b.unicode_len() {
        proof {
            assert(a@.len() != b@.len());
        }
        return false;
    }
    let mut i: usize = 0;
    while i < n
        invariant
            i <= n,
            n == a@.len(),
            n == b@.len(),
            forall|t: int| 0 <= t < i ==> a@[t] == b@[t],
        decreases n - i,
    {
        let ca = a.get_char(i);
        let cb = b.get_char(i);
        if ca != cb {
            proof {
                assert(a@[i as int] != b@[i as int]);
            }
            return false;
        }
        i = i + 1;
    }
    proof {
        assert(a@ =~= b@);
    }
    true
}

impl Json {
    /// Look a key up when this is an object; `None` otherwise.
    pub fn get<'a>(&'a self, key: &str) -> (r: Option<&'a Json>)
        ensures
            match self.spec_get(key@) {
                Some(j) => r matches Some(p) && *p == j,
                None => r is None,
            },
    {
        match self {
            Json::Obj(entries) => {
                let n = entries.len();
                let mut i: usize = 0;
                proof {
                    assert(self.spec_get(key@) == spec_lookup(entries@, key@));
                    assert(entries@.skip(0) =~= entries@);
                }
                while i < n
                    invariant
                        i <= n,
                        n == entries@.len(),
                        self.spec_get(key@) == spec_lookup(entries@.skip(i as int), key@),
                    decreases n - i,
                {
                    let ghost tail = entries@.skip(i as int);
                    let e = &entries[i];
                    proof {
                        assert(tail[0] == entries@[i as int]);
                    }
                    if str_eq(e.0.as_str(), key) {
                        proof {
                            assert(tail.len() > 0);
                            assert(tail[0].0@ == key@);
                            assert(spec_lookup(tail, key@) == Some(tail[0].1));
                        }
                        return Some(&e.1);
                    }
                    proof {
                        assert(tail.skip(1) =~= entries@.skip(i + 1));
                    }
                    i = i + 1;
                }
                proof {
                    assert(entries@.skip(n as int) =~= Seq::<(String, Json)>::empty());
                }
                None
            },
            _ => None,
        }
    }
}

} // verus!
