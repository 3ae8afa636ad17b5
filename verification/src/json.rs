//! A JSON document modeled as plain owned data, with verified navigation.

use vstd::prelude::*;

verus! {

/// One JSON value.
///
/// Numbers that fit in `u64` or `i64` keep their value; any other JSON
/// number (a fraction, or an integer outside both ranges) is carried as
/// `NumOther`, since the streaming logic only ever consumes unsigned
/// integer fields. Objects keep their entries as an ordered list of
/// key/value pairs, in the order the parser delivers them.
#[derive(Debug, PartialEq)]
pub enum Json {
    Null,
    Bool(bool),
    UInt(u64),
    Int(i64),
    NumOther,
    Str(String),
    Arr(Vec<Json>),
    Obj(Vec<(String, Json)>),
}

/// The value of the first entry whose key is `key`, if any.
pub open spec fn lookup_entries(entries: Seq<(String, Json)>, key: Seq<char>) -> Option<Json>
    decreases entries.len(),
{
    if entries.len() == 0 {
        None
    } else if entries[0].0@ == key {
        Some(entries[0].1)
    } else {
        lookup_entries(entries.drop_first(), key)
    }
}

impl Json {
    /// The member of this object named `key`, if this is an object with one.
    pub open spec fn spec_get(self, key: Seq<char>) -> Option<Json> {
        match self {
            Json::Obj(entries) => lookup_entries(entries@, key),
            _ => None,
        }
    }

    /// The `i`-th element, if this is an array with one.
    pub open spec fn spec_at(self, i: int) -> Option<Json> {
        match self {
            Json::Arr(items) => if 0 <= i < items@.len() {
                Some(items@[i])
            } else {
                None
            },
            _ => None,
        }
    }

    /// The characters of this value, if it is a string.
    pub open spec fn spec_str(self) -> Option<Seq<char>> {
        match self {
            Json::Str(s) => Some(s@),
            _ => None,
        }
    }

    /// The value of this number, if it is an unsigned integer.
    pub open spec fn spec_u64(self) -> Option<u64> {
        match self {
            Json::UInt(n) => Some(n),
            _ => None,
        }
    }

    /// Looks a member up by key in an object.
    #[verifier::loop_isolation(false)]
    pub fn get<'a>(&'a self, key: &String) -> (r: Option<&'a Json>)
        ensures
            (match r {
                Some(j) => self.spec_get(key@) == Some(*j),
                None => self.spec_get(key@) is None,
            }),
    {
        match self {
            Json::Obj(entries) => {
                let n: usize = entries.len();
                let mut i: usize = 0;
                proof {
                    assert(entries@.skip(0) =~= entries@);
                }
                while i < n
                    invariant
                        i <= n,
                        n == entries@.len(),
                        lookup_entries(entries@, key@) == lookup_entries(
                            entries@.skip(i as int),
                            key@,
                        ),
                    decreases n - i,
                {
                    proof {
                        assert(entries@.skip(i as int)[0] == entries@[i as int]);
                        assert(entries@.skip(i as int).drop_first() =~= entries@.skip(
                            i as int + 1,
                        ));
                    }
                    if entries[i].0 == *key {
                        proof {
                            assert(lookup_entries(entries@.skip(i as int), key@) == Some(
                                entries@[i as int].1,
                            ));
                        }
                        return Some(&entries[i].1);
                    }
                    i = i + 1;
                }
                proof {
                    assert(entries@.skip(n as int) =~= Seq::<(String, Json)>::empty());
                }
                None
            },
            _ => None,
        }
    }

    /// Returns the `i`-th element of an array.
    pub fn at<'a>(&'a self, i: usize) -> (r: Option<&'a Json>)
        ensures
            (match r {
                Some(j) => self.spec_at(i as int) == Some(*j),
                None => self.spec_at(i as int) is None,
            }),
    {
        match self {
            Json::Arr(items) => if i < items.len() {
                Some(&items[i])
            } else {
                None
            },
            _ => None,
        }
    }

    /// Returns the string content of this value, if it is a string.
    pub fn as_str<'a>(&'a self) -> (r: Option<&'a String>)
        ensures
            (match r {
                Some(s) => self.spec_str() == Some(s@),
                None => self.spec_str() is None,
            }),
    {
        match self {
            Json::Str(s) => Some(s),
            _ => None,
        }
    }

    /// Returns the value of this number, if it is an unsigned integer.
    pub fn as_u64(&self) -> (r: Option<u64>)
        ensures
            r == self.spec_u64(),
    {
        match self {
            Json::UInt(n) => Some(*n),
            _ => None,
        }
    }
}

} // verus!
