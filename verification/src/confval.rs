//! The configuration document as an in-memory value.
//!
//! The document is loaded and parsed before the service starts; the core only
//! ever reads it. `ConfValue` is the pre-resolved shape of such a document:
//! scalars, lists, and records of key/value entries. Indexing follows the
//! document's conventions: looking a key up in anything but a record, or a key
//! that is not present, yields the null value.

use vstd::prelude::*;

verus! {

/// A read-only configuration value, as handed to the service at startup.
pub enum ConfValue {
    Null,
    Bool(bool),
    Int(u64),
    Text(String),
    List(Vec<ConfValue>),
    Record(Vec<(String, ConfValue)>),
}

/// The value under the first entry of `entries` whose key is `key`,
/// if any entry has that key.
pub open spec fn entry_lookup(entries: Seq<(String, ConfValue)>, key: Seq<char>) -> Option<
    ConfValue,
>
    decreases entries.len(),
{
    if entries.len() == 0 {
        None
    } else if entries[0].0@ == key {
        Some(entries[0].1)
    } else {
        entry_lookup(entries.drop_first(), key)
    }
}

/// Indexing into a configuration value: the value under `key` if `v` is a
/// record that has the key, and null otherwise.
pub open spec fn spec_key(v: ConfValue, key: Seq<char>) -> ConfValue {
    match v {
        ConfValue::Record(entries) => match entry_lookup(entries@, key) {
            Some(x) => x,
            None => ConfValue::Null,
        },
        _ => ConfValue::Null,
    }
}

/// The character sequence of a text value.
pub open spec fn spec_as_text(v: ConfValue) -> Option<Seq<char>> {
    match v {
        ConfValue::Text(s) => Some(s@),
        _ => None,
    }
}

/// The number held by an integer value.
pub open spec fn spec_as_int(v: ConfValue) -> Option<u64> {
    match v {
        ConfValue::Int(n) => Some(n),
        _ => None,
    }
}

/// The items of a list value.
pub open spec fn spec_as_list(v: ConfValue) -> Option<Seq<ConfValue>> {
    match v {
        ConfValue::List(items) => Some(items@),
        _ => None,
    }
}

proof fn lemma_entry_lookup_skip(entries: Seq<(String, ConfValue)>, key: Seq<char>, i: int)
    requires
        0 <= i <= entries.len(),
        forall|k: int| 0 <= k < i ==> entries[k].0@ != key,
    ensures
        entry_lookup(entries, key) == entry_lookup(entries.skip(i), key),
    decreases i,
{
    if i > 0 {
        assert(entries.drop_first() =~= entries.skip(1));
        lemma_entry_lookup_skip(entries.skip(1), key, i - 1);
        assert(entries.skip(1).skip(i - 1) =~= entries.skip(i));
    } else {
        assert(entries.skip(0) =~= entries);
    }
}

impl ConfValue {
    /// The value under `key`, if this value is a record that has the key.
    /// A record's first entry with the key wins, as document indexing does.
    pub fn key<'a>(&'a self, key: &String) -> (r: Option<&'a ConfValue>)
        ensures
            match r {
                Some(x) => spec_key(*self, key@) == *x && !(spec_key(*self, key@) is Null),
                None => spec_key(*self, key@) == (ConfValue::Null),
            },
    {
        match self {
            ConfValue::Record(entries) => {
                let n = entries.len();
                for i in 0..n
                    invariant
                        n == entries.len(),
                        *self == ConfValue::Record(*entries),
                        forall|k: int| 0 <= k < i ==> entries@[k].0@ != key@,
                {
                    if entries[i].0 == *key {
                        proof {
                            lemma_entry_lookup_skip(entries@, key@, i as int);
                            assert(entries@.skip(i as int)[0] == entries@[i as int]);
                            assert(entry_lookup(entries@.skip(i as int), key@) == Some(
                                entries@[i as int].1,
                            ));
                            assert(entry_lookup(entries@, key@) == Some(entries@[i as int].1));
                        }
                        let found = &entries[i].1;
                        return match found {
                            ConfValue::Null => None,
                            _ => Some(found),
                        };
                    }
                }
                proof {
                    lemma_entry_lookup_skip(entries@, key@, n as int);
                    assert(entries@.skip(n as int) =~= Seq::<(String, ConfValue)>::empty());
                }
                None
            },
            _ => None,
        }
    }

    /// The held string, if this is a text value.
    pub fn as_text(&self) -> (r: Option<&String>)
        ensures
            match r {
                Some(s) => spec_as_text(*self) == Some(s@),
                None => spec_as_text(*self) is None,
            },
    {
        match self {
            ConfValue::Text(s) => Some(s),
            _ => None,
        }
    }

    /// The held number, if this is an integer value.
    pub fn as_int(&self) -> (r: Option<u64>)
        ensures
            r == spec_as_int(*self),
    {
        match self {
            ConfValue::Int(n) => Some(*n),
            _ => None,
        }
    }

    /// The held entries, if this is a list value.
    pub fn as_list(&self) -> (r: Option<&Vec<ConfValue>>)
        ensures
            match r {
                Some(items) => spec_as_list(*self) == Some(items@),
                None => spec_as_list(*self) is None,
            },
    {
        match self {
            ConfValue::List(items) => Some(items),
            _ => None,
        }
    }
}

} // verus!
