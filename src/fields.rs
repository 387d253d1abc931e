use vstd::prelude::*;
use crate::text::same_text;
use crate::value::{proto_to_db_value, wire_meaning, DbValue, Val, WireValue};

verus! {

/// Named values of one row, keys unique, in the order they were first inserted.
#[derive(Debug, Clone)]
pub struct FieldMap<V> {
    entries: Vec<(String, V)>,
}

pub open spec fn keys_unique<V>(s: Seq<(Seq<char>, V)>) -> bool {
    forall|i: int, j: int| 0 <= i < j < s.len() ==> s[i].0 != s[j].0
}

pub open spec fn key_at<V>(s: Seq<(Seq<char>, V)>, k: Seq<char>) -> Option<int> {
    if exists|i: int| 0 <= i < s.len() && s[i].0 == k {
        Some(choose|i: int| 0 <= i < s.len() && s[i].0 == k)
    } else {
        None
    }
}

impl<V> FieldMap<V> {
    /// The entries: key text and value, in order.
    pub closed spec fn entries(&self) -> Seq<(Seq<char>, V)> {
        self.entries@.map_values(|e: (String, V)| (e.0@, e.1))
    }

    pub open spec fn wf(&self) -> bool {
        keys_unique(self.entries())
    }

    pub fn new() -> (r: Self)
        ensures
            r.entries() == Seq::<(Seq<char>, V)>::empty(),
            r.wf(),
    {
        let r = FieldMap { entries: Vec::new() };
        assert(r.entries() =~= Seq::<(Seq<char>, V)>::empty());
        r
    }

    /// Position of the entry with key `key`.
    fn position(&self, key: &str) -> (r: Option<usize>)
        ensures
            r matches Some(i) ==> i < self.entries().len() && self.entries()[i as int].0 == key@,
            r is None ==> forall|i: int|
                0 <= i < self.entries().len() ==> self.entries()[i].0 != key@,
    {
        let mut i: usize = 0;
        while i < self.entries.len()
            invariant
                i <= self.entries.len(),
                forall|k: int| 0 <= k < i ==> self.entries()[k].0 != key@,
            decreases self.entries.len() - i,
        {
            if same_text(self.entries[i].0.as_str(), key) {
                return Some(i);
            }
            i = i + 1;
        }
        None
    }

    /// Sets the value under `key`: an existing entry keeps its place and
    /// takes the new value, a new key goes to the end.
    pub fn insert(&mut self, key: String, value: V)
        requires
            old(self).wf(),
        ensures
            final(self).wf(),
            key_at(old(self).entries(), key@) matches Some(i) ==> final(self).entries()
                == old(self).entries().update(i, (key@, value)),
            key_at(old(self).entries(), key@) is None ==> final(self).entries() == old(
                self,
            ).entries().push((key@, value)),
    {
        let ghost before = self.entries();
        match self.position(key.as_str()) {
            Some(i) => {
                proof {
                    let j = choose|j: int| 0 <= j < before.len() && before[j].0 == key@;
                    assert(j == i as int);
                }
                self.entries.set(i, (key, value));
                proof {
                    assert(self.entries() =~= before.update(i as int, (key@, value)));
                }
            },
            None => {
                self.entries.push((key, value));
                proof {
                    assert(self.entries() =~= before.push((key@, value)));
                }
            },
        }
    }

    /// The value under `key`.
    pub fn get(&self, key: &str) -> (r: Option<&V>)
        requires
            self.wf(),
        ensures
            key_at(self.entries(), key@) matches Some(i) ==> r == Some(&self.entries()[i].1),
            key_at(self.entries(), key@) is None ==> r is None,
    {
        match self.position(key) {
            Some(i) => {
                proof {
                    let s = self.entries();
                    let j = choose|j: int| 0 <= j < s.len() && s[j].0 == key@;
                    assert(j == i as int);
                }
                Some(&self.entries[i].1)
            },
            None => None,
        }
    }

    /// Whether an entry has the key `key`.
    pub fn contains_key(&self, key: &str) -> (r: bool)
        ensures
            r == key_at(self.entries(), key@) is Some,
    {
        self.position(key).is_some()
    }

    pub open spec fn len_spec(&self) -> nat {
        self.entries().len()
    }

    pub fn len(&self) -> (r: usize)
        ensures
            r == self.entries().len(),
    {
        self.entries.len()
    }

    pub fn is_empty(&self) -> (r: bool)
        ensures
            r == (self.entries().len() == 0),
    {
        self.entries.len() == 0
    }

    /// The entry at position `i`.
    pub fn entry(&self, i: usize) -> (r: (&str, &V))
        requires
            i < self.entries().len(),
        ensures
            r.0@ == self.entries()[i as int].0,
            *r.1 == self.entries()[i as int].1,
    {
        let e = &self.entries[i];
        (e.0.as_str(), &e.1)
    }

    /// The entries, taken out of the map, in order.
    pub fn into_entries(self) -> (r: Vec<(String, V)>)
        ensures
            r@.len() == self.entries().len(),
            forall|i: int|
                0 <= i < r@.len() ==> (#[trigger] r@[i]).0@ == self.entries()[i].0 && r@[i].1
                    == self.entries()[i].1,
    {
        self.entries
    }
}

/// The storage meaning of each wire entry, keys kept.
pub open spec fn storage_entries(s: Seq<(Seq<char>, WireValue)>) -> Seq<(Seq<char>, Val)> {
    s.map_values(|e: (Seq<char>, WireValue)| (e.0, wire_meaning(e.1)))
}

/// The model of each storage entry, keys kept.
pub open spec fn entry_models(s: Seq<(Seq<char>, DbValue)>) -> Seq<(Seq<char>, Val)> {
    s.map_values(|e: (Seq<char>, DbValue)| (e.0, e.1@))
}

/// Converts each wire value of a row to storage form; keys and order are kept.
pub fn proto_values_to_db_values(values: FieldMap<WireValue>) -> (r: FieldMap<DbValue>)
    requires
        values.wf(),
    ensures
        r.wf(),
        entry_models(r.entries()) == storage_entries(values.entries()),
{
    let ghost src = values.entries();
    let mut rest = values.entries;
    let mut out: Vec<(String, DbValue)> = Vec::new();
    while rest.len() > 0
        invariant
            out@.len() + rest@.len() == src.len(),
            forall|k: int|
                0 <= k < rest@.len() ==> (#[trigger] rest@[k]).0@ == src[out@.len() + k].0
                    && rest@[k].1 == src[out@.len() + k].1,
            forall|k: int|
                0 <= k < out@.len() ==> (#[trigger] out@[k]).0@ == src[k].0 && out@[k].1@
                    == wire_meaning(src[k].1),
        decreases rest.len(),
    {
        let (k, v) = rest.remove(0);
        out.push((k, proto_to_db_value(v)));
    }
    let r = FieldMap { entries: out };
    assert(entry_models(r.entries()) =~= storage_entries(src));
    assert forall|i: int, j: int| 0 <= i < j < r.entries().len() implies r.entries()[i].0
        != r.entries()[j].0 by {
        assert(src[i].0 != src[j].0);
    }
    r
}

} // verus!
