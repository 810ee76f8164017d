//! A small table from strings to values, kept in the order of its keys.

use crate::text;
use vstd::prelude::*;

verus! {

/// Whether some entry has this key.
pub open spec fn has<V>(entries: Seq<(Seq<char>, V)>, key: Seq<char>) -> bool {
    exists|i: int| 0 <= i < entries.len() && #[trigger] entries[i].0 == key
}

/// Where the entry with this key stands.
pub open spec fn place<V>(entries: Seq<(Seq<char>, V)>, key: Seq<char>) -> int {
    choose|i: int| 0 <= i < entries.len() && #[trigger] entries[i].0 == key
}

/// The value with this key, where there is one.
pub open spec fn find<V>(entries: Seq<(Seq<char>, V)>, key: Seq<char>) -> Option<V> {
    if has(entries, key) {
        Some(entries[place(entries, key)].1)
    } else {
        None
    }
}

/// The entries without the one that has this key.
pub open spec fn without<V>(entries: Seq<(Seq<char>, V)>, key: Seq<char>) -> Seq<(Seq<char>, V)> {
    if has(entries, key) {
        entries.remove(place(entries, key))
    } else {
        entries
    }
}

/// Every entry stands before every later one, so no key occurs twice.
pub open spec fn ascending<V>(entries: Seq<(Seq<char>, V)>) -> bool {
    forall|i: int, j: int|
        0 <= i < j < entries.len() ==> text::before((#[trigger] entries[i]).0, (#[trigger] entries[j]).0)
}

/// A table from strings to values.
#[derive(Debug)]
pub struct Keyed<V> {
    entries: Vec<(String, V)>,
}

impl<V> View for Keyed<V> {
    type V = Seq<(Seq<char>, V)>;

    closed spec fn view(&self) -> Seq<(Seq<char>, V)> {
        Seq::new(self.entries@.len(), |i: int| (self.entries@[i].0@, self.entries@[i].1))
    }
}

impl<V> Keyed<V> {
    /// The keys ascend.
    pub open spec fn wf(&self) -> bool {
        ascending(self@)
    }

    /// The table without entries.
    pub fn new() -> (out: Self)
        ensures
            out.wf(),
            out@ == Seq::<(Seq<char>, V)>::empty(),
    {
        let out = Keyed { entries: Vec::new() };
        proof {
            assert(out@ =~= Seq::<(Seq<char>, V)>::empty());
        }
        out
    }

    /// How many entries there are.
    pub fn len(&self) -> (out: usize)
        ensures
            out == self@.len(),
    {
        self.entries.len()
    }

    /// Where `key` stands or would stand: every earlier key is before it, and no
    /// later one is.
    fn position(&self, key: &str) -> (at: usize)
        requires
            self.wf(),
        ensures
            at <= self@.len(),
            forall|i: int| 0 <= i < at ==> text::before(#[trigger] self@[i].0, key@),
            forall|i: int| at <= i < self@.len() ==> !text::before(#[trigger] self@[i].0, key@),
    {
        let mut at: usize = 0;
        while at < self.entries.len() && text::precedes(self.entries[at].0.as_str(), key)
            invariant
                at <= self.entries@.len(),
                forall|i: int| 0 <= i < at ==> text::before(#[trigger] self@[i].0, key@),
            decreases self.entries@.len() - at,
        {
            proof {
                assert(self@[at as int].0 == self.entries@[at as int].0@);
            }
            at += 1;
        }
        proof {
            assert forall|i: int| at <= i < self@.len() implies !text::before(#[trigger] self@[i].0, key@) by {
                assert(self@[at as int].0 == self.entries@[at as int].0@);
                if i > at && text::before(self@[i].0, key@) {
                    text::before_is_transitive(self@[at as int].0, self@[i].0, key@);
                }
            }
        }
        at
    }

    /// Puts `value` under `key`, in place of what was there.
    pub fn insert(&mut self, key: String, value: V)
        requires
            old(self).wf(),
        ensures
            final(self).wf(),
            find(final(self)@, key@) == Some(value),
            forall|other: Seq<char>| other != key@ ==> #[trigger] find(final(self)@, other) == find(old(self)@, other),
    {
        let ghost before = self@;
        let ghost name = key@;
        let at: usize = self.position(&key);
        let taken: bool = at < self.entries.len() && text::same(self.entries[at].0.as_str(), &key);
        if taken {
            let _ = self.entries.remove(at);
        }
        self.entries.insert(at, (key, value));
        proof {
            let after = self@;
            if taken {
                assert(before[at as int].0 == name);
                assert(after =~= before.update(at as int, (name, value)));
            } else {
                assert(after =~= before.insert(at as int, (name, value)));
            }
            let rest: int = if taken { at + 1 } else { at as int };
            let shift: int = if taken { 0 } else { 1 };
            assert forall|i: int| rest <= i < before.len() implies text::before(name, #[trigger] before[i].0) by {
                text::before_is_total(name, before[i].0);
                if before[i].0 == name {
                    if taken {
                        assert(text::before(before[at as int].0, before[i].0));
                        text::before_is_irreflexive(name);
                    } else {
                        assert(at < before.len());
                        assert(before[at as int].0 != name);
                        assert(text::before(before[at as int].0, before[i].0));
                        assert(false);
                    }
                }
            }
            assert(ascending(after)) by {
                assert forall|i: int, j: int| 0 <= i < j < after.len() implies text::before(
                    (#[trigger] after[i]).0,
                    (#[trigger] after[j]).0,
                ) by {
                    let a: int = if i <= at { i } else { i - shift };
                    let b: int = if j <= at { j } else { j - shift };
                    if i < at && j < at {
                        assert(text::before(before[a].0, before[b].0));
                    } else if i < at && j == at {
                        assert(text::before(before[i].0, name));
                    } else if i < at {
                        assert(text::before(before[a].0, before[b].0));
                    } else if i == at {
                        assert(text::before(name, before[b].0));
                    } else {
                        assert(text::before(before[a].0, before[b].0));
                    }
                }
            }
            assert(after[at as int] == (name, value));
            found(after, at as int);
            assert forall|other: Seq<char>| other != name implies #[trigger] find(after, other) == find(before, other) by {
                if has(before, other) {
                    let i = place(before, other);
                    let k: int = if i < at { i } else { i + shift };
                    assert(after[k] == before[i]);
                    found(after, k);
                    found(before, i);
                }
                if has(after, other) {
                    let k = place(after, other);
                    let i: int = if k < at { k } else { k - shift };
                    assert(after[k] == before[i]);
                }
            }
        }
    }

    /// Takes out the value under `key`.
    pub fn remove(&mut self, key: &str) -> (out: Option<V>)
        requires
            old(self).wf(),
        ensures
            final(self).wf(),
            out == find(old(self)@, key@),
            final(self)@ == without(old(self)@, key@),
    {
        let ghost before = self@;
        let at: usize = self.position(key);
        if at < self.entries.len() && text::same(self.entries[at].0.as_str(), key) {
            let (_, value) = self.entries.remove(at);
            proof {
                assert(before[at as int].0 == key@);
                found(before, at as int);
                assert(self@ =~= before.remove(at as int));
            }
            Some(value)
        } else {
            proof {
                if has(before, key@) {
                    let i = place(before, key@);
                    text::before_is_irreflexive(key@);
                    if i > at {
                        text::before_is_total(before[at as int].0, key@);
                        assert(text::before(before[at as int].0, before[i].0));
                    }
                    assert(false);
                }
            }
            None
        }
    }

    /// Whether there is a value under `key`.
    pub fn contains(&self, key: &str) -> (out: bool)
        requires
            self.wf(),
        ensures
            out == has(self@, key@),
    {
        let mut i: usize = 0;
        while i < self.entries.len()
            invariant
                i <= self.entries@.len(),
                forall|j: int| 0 <= j < i ==> #[trigger] self@[j].0 != key@,
            decreases self.entries@.len() - i,
        {
            if text::same(self.entries[i].0.as_str(), key) {
                proof {
                    assert(self@[i as int].0 == key@);
                }
                return true;
            }
            proof {
                assert(self@[i as int].0 == self.entries@[i as int].0@);
            }
            i += 1;
        }
        false
    }

    /// The value under `key`, where there is one.
    pub fn get(&self, key: &str) -> (out: Option<&V>)
        requires
            self.wf(),
        ensures
            match out {
                Some(value) => find(self@, key@) == Some(*value),
                None => find(self@, key@) is None,
            },
    {
        let mut i: usize = 0;
        while i < self.entries.len()
            invariant
                self.wf(),
                i <= self.entries@.len(),
                forall|j: int| 0 <= j < i ==> #[trigger] self@[j].0 != key@,
            decreases self.entries@.len() - i,
        {
            if text::same(self.entries[i].0.as_str(), key) {
                proof {
                    assert(self@[i as int].0 == key@);
                    found(self@, i as int);
                }
                return Some(&self.entries[i].1);
            }
            proof {
                assert(self@[i as int].0 == self.entries@[i as int].0@);
            }
            i += 1;
        }
        None
    }

    /// The key that stands at `i`.
    pub fn key_at(&self, i: usize) -> (out: &String)
        requires
            i < self@.len(),
        ensures
            out@ == self@[i as int].0,
    {
        &self.entries[i].0
    }

    /// The value that stands at `i`.
    pub fn value_at(&self, i: usize) -> (out: &V)
        requires
            i < self@.len(),
        ensures
            *out == self@[i as int].1,
    {
        &self.entries[i].1
    }

    /// Takes out everything, in the order of the keys.
    pub fn take(&mut self) -> (out: Vec<(String, V)>)
        requires
            old(self).wf(),
        ensures
            final(self).wf(),
            final(self)@.len() == 0,
            out@.len() == old(self)@.len(),
            forall|i: int|
                0 <= i < out@.len() ==> (#[trigger] out@[i]).0@ == old(self)@[i].0 && out@[i].1 == old(self)@[i].1,
    {
        let mut out: Vec<(String, V)> = Vec::new();
        out.append(&mut self.entries);
        out
    }
}

/// In a table whose keys ascend, an entry is the one found under its key.
pub proof fn found<V>(entries: Seq<(Seq<char>, V)>, i: int)
    requires
        ascending(entries),
        0 <= i < entries.len(),
    ensures
        has(entries, entries[i].0),
        place(entries, entries[i].0) == i,
        find(entries, entries[i].0) == Some(entries[i].1),
{
    let k = place(entries, entries[i].0);
    assert(entries[i].0 == entries[i].0);
    text::before_is_irreflexive(entries[i].0);
    if k < i {
        assert(text::before(entries[k].0, entries[i].0));
    } else if i < k {
        assert(text::before(entries[i].0, entries[k].0));
    }
}

/// Taking out a key takes out that key, and no other.
pub proof fn taken_out<V>(entries: Seq<(Seq<char>, V)>, key: Seq<char>, other: Seq<char>)
    requires
        ascending(entries),
    ensures
        ascending(without(entries, key)),
        find(without(entries, key), other) == if other == key {
            None
        } else {
            find(entries, other)
        },
{
    if has(entries, key) {
        let at = place(entries, key);
        let rest = without(entries, key);
        found(entries, at);
        assert forall|i: int| 0 <= i < rest.len() implies #[trigger] rest[i] == entries[if i < at { i } else { i + 1 }] by {}
        assert forall|i: int, j: int| 0 <= i < j < rest.len() implies text::before(
            (#[trigger] rest[i]).0,
            (#[trigger] rest[j]).0,
        ) by {
            let a: int = if i < at { i } else { i + 1 };
            let b: int = if j < at { j } else { j + 1 };
            assert(text::before(entries[a].0, entries[b].0));
        }
        if has(rest, other) {
            let k = place(rest, other);
            let i: int = if k < at { k } else { k + 1 };
            found(entries, i);
            found(rest, k);
        }
        if has(entries, other) && other != key {
            let i = place(entries, other);
            let k: int = if i < at { i } else { i - 1 };
            assert(rest[k] == entries[i]);
            found(rest, k);
            found(entries, i);
        }
    }
}

} // verus!
