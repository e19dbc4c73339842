//! Structured values carried by protocol requests and responses.
//!
//! A [`Value`] mirrors the shape of a JSON document as plain data the
//! library can reason about. Numbers are split by kind: one that fits a
//! signed 64-bit integer is held as [`Value::Int`]; any other number keeps
//! its decimal text in [`Value::Num`]. The embedding program converts
//! between JSON text and these values.

use vstd::prelude::*;

verus! {

/// A structured value, shaped like a JSON document.
#[derive(Debug, PartialEq)]
pub enum Value {
    /// The null value.
    Null,
    /// A boolean.
    Bool(bool),
    /// A number representable as a signed 64-bit integer.
    Int(i64),
    /// Any other number, kept as its decimal text.
    Num(String),
    /// A string.
    Str(String),
    /// An ordered sequence of values.
    List(Vec<Value>),
    /// A key-value object, in insertion order.
    Object(Vec<(String, Value)>),
}

/// Looks a key up in a sequence of object entries; first match wins.
pub open spec fn lookup_entry(entries: Seq<(String, Value)>, key: Seq<char>) -> Option<Value>
    decreases entries.len(),
{
    if entries.len() == 0 {
        None
    } else if entries[0].0@ == key {
        Some(entries[0].1)
    } else {
        lookup_entry(entries.skip(1), key)
    }
}

/// If the first entry named `key` stands at `k`, the lookup returns its value.
pub proof fn lemma_lookup_at(entries: Seq<(String, Value)>, key: Seq<char>, k: int)
    requires
        0 <= k < entries.len(),
        entries[k].0@ == key,
        forall|j: int| 0 <= j < k ==> entries[j].0@ != key,
    ensures
        lookup_entry(entries, key) == Some(entries[k].1),
    decreases k,
{
    if k > 0 {
        lemma_lookup_at(entries.skip(1), key, k - 1);
    }
}

/// If some entry at `k` is named `key`, the lookup finds one.
pub proof fn lemma_lookup_some(entries: Seq<(String, Value)>, key: Seq<char>, k: int)
    requires
        0 <= k < entries.len(),
        entries[k].0@ == key,
    ensures
        lookup_entry(entries, key) is Some,
    decreases k,
{
    if entries[0].0@ != key {
        lemma_lookup_some(entries.skip(1), key, k - 1);
    }
}

/// If no entry is named `key`, the lookup returns nothing.
pub proof fn lemma_lookup_none(entries: Seq<(String, Value)>, key: Seq<char>)
    requires
        forall|j: int| 0 <= j < entries.len() ==> entries[j].0@ != key,
    ensures
        lookup_entry(entries, key) is None,
    decreases entries.len(),
{
    if entries.len() > 0 {
        lemma_lookup_none(entries.skip(1), key);
    }
}

/// An attribute map: named parameters attached to one promise invocation.
///
/// Keys are expected to be unique, as they are in a JSON object; lookups
/// return the first entry with a matching name.
#[derive(Debug, PartialEq)]
pub struct AttrMap {
    /// The entries, in insertion order.
    pub entries: Vec<(String, Value)>,
}

impl AttrMap {
    /// What the map associates with `key`, if anything.
    pub open spec fn spec_get(&self, key: Seq<char>) -> Option<Value> {
        lookup_entry(self.entries@, key)
    }

    /// Whether the map holds an entry named `key`.
    pub open spec fn spec_contains(&self, key: Seq<char>) -> bool {
        self.spec_get(key) is Some
    }

    /// An empty attribute map.
    pub fn new() -> (r: AttrMap)
        ensures
            r.entries@.len() == 0,
    {
        AttrMap { entries: Vec::new() }
    }

    /// Appends an entry.
    pub fn insert(&mut self, key: String, value: Value)
        ensures
            final(self).entries@ == old(self).entries@.push((key, value)),
    {
        self.entries.push((key, value));
    }

    /// Returns the value named `key`, if present.
    pub fn get(&self, key: &str) -> (r: Option<&Value>)
        ensures
            match r {
                Some(v) => self.spec_get(key@) == Some(*v),
                None => self.spec_get(key@) is None,
            },
    {
        let n = self.entries.len();
        let mut i: usize = 0;
        proof {
            assert(self.entries@.skip(0) =~= self.entries@);
        }
        while i < n
            invariant
                n == self.entries@.len(),
                i <= n,
                lookup_entry(self.entries@.skip(i as int), key@) == self.spec_get(key@),
                forall|j: int| 0 <= j < i ==> self.entries@[j].0@ != key@,
            decreases n - i,
        {
            proof {
                assert(self.entries@.skip(i as int)[0] == self.entries@[i as int]);
            }
            if str_eq(self.entries[i].0.as_str(), key) {
                return Some(&self.entries[i].1);
            }
            proof {
                assert(self.entries@.skip(i as int).skip(1) =~= self.entries@.skip(i + 1));
            }
            i = i + 1;
        }
        proof {
            assert(self.entries@.skip(n as int).len() == 0);
        }
        None
    }

    /// Whether the map holds an entry named `key`.
    pub fn contains_key(&self, key: &str) -> (r: bool)
        ensures
            r == self.spec_contains(key@),
    {
        self.get(key).is_some()
    }
}

/// Compares two string slices character by character.
pub fn str_eq(a: &str, b: &str) -> (r: bool)
    ensures
        r == (a@ == b@),
{
    let alen = a.unicode_len();
    let blen = b.unicode_len();
    if alen != blen {
        proof {
            assert(a@ != b@) by {
                if a@ == b@ {
                    assert(a@.len() == b@.len());
                }
            }
        }
        return false;
    }
    let mut i: usize = 0;
    while i < alen
        invariant
            alen == a@.len(),
            blen == b@.len(),
            alen == blen,
            i <= alen,
            forall|j: int| 0 <= j < i ==> a@[j] == b@[j],
        decreases alen - i,
    {
        if a.get_char(i) != b.get_char(i) {
            return false;
        }
        i = i + 1;
    }
    proof {
        assert(a@ =~= b@);
    }
    true
}

} // verus!
