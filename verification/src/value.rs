//! Property values as a device reports them.

use crate::text::same;
use vstd::prelude::*;

verus! {

/// One value of a property list, as far as this crate reads it.
#[derive(Debug)]
pub enum Value {
    Boolean(bool),
    /// An integer that fits in 64 bits without a sign.
    Unsigned(u64),
    Text(String),
    /// The entries of a dictionary, each under its key.
    Dictionary(Vec<(String, Value)>),
    /// Any other value: a date, a real number, raw data, an array, a negative
    /// integer.
    Other,
}

/// The value of the first entry under `key`.
pub open spec fn lookup(entries: Seq<(String, Value)>, key: Seq<char>) -> Option<Value>
    decreases entries.len(),
{
    if entries.len() == 0 {
        None
    } else if entries[0].0@ == key {
        Some(entries[0].1)
    } else {
        lookup(entries.drop_first(), key)
    }
}

/// Skipping entries under other keys does not change what `lookup` finds.
proof fn lookup_skips(entries: Seq<(String, Value)>, key: Seq<char>, n: int)
    requires
        0 <= n <= entries.len(),
        forall|j: int| 0 <= j < n ==> (#[trigger] entries[j]).0@ != key,
    ensures
        lookup(entries, key) == lookup(entries.skip(n), key),
    decreases n,
{
    if n == 0 {
        assert(entries.skip(0) == entries);
    } else {
        lookup_skips(entries, key, n - 1);
        let tail = entries.skip(n - 1);
        assert(tail[0] == entries[n - 1]);
        assert(tail.drop_first() == entries.skip(n));
    }
}

impl Value {
    /// The truth value, where this is one.
    pub open spec fn boolean(self) -> Option<bool> {
        match self {
            Value::Boolean(b) => Some(b),
            _ => None,
        }
    }

    /// The number, where this is an unsigned integer.
    pub open spec fn unsigned(self) -> Option<u64> {
        match self {
            Value::Unsigned(n) => Some(n),
            _ => None,
        }
    }

    /// The characters, where this is a string.
    pub open spec fn text(self) -> Option<Seq<char>> {
        match self {
            Value::Text(s) => Some(s@),
            _ => None,
        }
    }

    /// The value under `key`, where this is a dictionary that has one.
    pub open spec fn entry(self, key: Seq<char>) -> Option<Value> {
        match self {
            Value::Dictionary(entries) => lookup(entries@, key),
            _ => None,
        }
    }

    /// The string under `key`, where this is a dictionary that holds a string
    /// there.
    pub open spec fn text_entry(self, key: Seq<char>) -> Option<Seq<char>> {
        match self.entry(key) {
            Some(value) => value.text(),
            None => None,
        }
    }

    pub fn as_boolean(&self) -> (out: Option<bool>)
        ensures
            out == self.boolean(),
    {
        match self {
            Value::Boolean(b) => Some(*b),
            _ => None,
        }
    }

    pub fn as_unsigned(&self) -> (out: Option<u64>)
        ensures
            out == self.unsigned(),
    {
        match self {
            Value::Unsigned(n) => Some(*n),
            _ => None,
        }
    }

    pub fn as_text(&self) -> (out: Option<&String>)
        ensures
            match out {
                Some(s) => self.text() == Some(s@),
                None => self.text().is_none(),
            },
    {
        match self {
            Value::Text(s) => Some(s),
            _ => None,
        }
    }

    /// The value of the first entry under `key`.
    pub fn get(&self, key: &str) -> (out: Option<&Value>)
        ensures
            match out {
                Some(value) => self.entry(key@) == Some(*value),
                None => self.entry(key@).is_none(),
            },
    {
        match self {
            Value::Dictionary(entries) => {
                let mut i: usize = 0;
                while i < entries.len()
                    invariant
                        i <= entries.len(),
                        self.entry(key@) == lookup(entries@, key@),
                        forall|j: int| 0 <= j < i ==> (#[trigger] entries@[j]).0@ != key@,
                    decreases entries.len() - i,
                {
                    if same(entries[i].0.as_str(), key) {
                        proof {
                            lookup_skips(entries@, key@, i as int);
                            let tail = entries@.skip(i as int);
                            assert(tail[0] == entries@[i as int]);
                            assert(lookup(tail, key@) == Some(tail[0].1));
                        }
                        return Some(&entries[i].1);
                    }
                    i += 1;
                }
                proof {
                    lookup_skips(entries@, key@, entries@.len() as int);
                }
                None
            },
            _ => None,
        }
    }

    /// The string under `key`.
    pub fn get_text(&self, key: &str) -> (out: Option<&String>)
        ensures
            match out {
                Some(s) => self.text_entry(key@) == Some(s@),
                None => self.text_entry(key@).is_none(),
            },
    {
        match self.get(key) {
            Some(value) => value.as_text(),
            None => None,
        }
    }
}

} // verus!
