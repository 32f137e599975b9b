//! An insertion-ordered association list keyed by strings.
//!
//! The aggregates of this crate keep their participants, vote types and logs
//! in such lists. A key occurs at most once; an entry keeps the place it was
//! first inserted at, so that everything folded from a log is a function of
//! the log alone.
use vstd::prelude::*;
use crate::util::text::same_text;

verus! {

/// Whether no key occurs twice among `entries`.
pub open spec fn distinct_keys<V>(entries: Seq<(Seq<char>, V)>) -> bool {
    forall|i: int, j: int|
        0 <= i < j < entries.len() ==> (#[trigger] entries[i]).0 != (#[trigger] entries[j]).0
}

/// Whether some entry stands under `key`.
pub open spec fn holds_key<V>(entries: Seq<(Seq<char>, V)>, key: Seq<char>) -> bool {
    exists|i: int| 0 <= i < entries.len() && (#[trigger] entries[i]).0 == key
}

/// A position at which an entry stands under `key`; the only one where the
/// keys are distinct.
pub open spec fn position<V>(entries: Seq<(Seq<char>, V)>, key: Seq<char>) -> int {
    choose|i: int| 0 <= i < entries.len() && (#[trigger] entries[i]).0 == key
}

/// The value under `key`, if there is one.
pub open spec fn lookup<V>(entries: Seq<(Seq<char>, V)>, key: Seq<char>) -> Option<V> {
    if holds_key(entries, key) {
        Some(entries[position(entries, key)].1)
    } else {
        None
    }
}

/// `entries` with `value` under `key`: in the place of the old value where the
/// key is held already, at the end otherwise.
pub open spec fn upsert<V>(entries: Seq<(Seq<char>, V)>, key: Seq<char>, value: V) -> Seq<
    (Seq<char>, V),
> {
    if holds_key(entries, key) {
        entries.update(position(entries, key), (key, value))
    } else {
        entries.push((key, value))
    }
}

/// `entries` without the entry under `key`; the others keep their order.
pub open spec fn without<V>(entries: Seq<(Seq<char>, V)>, key: Seq<char>) -> Seq<(Seq<char>, V)> {
    if holds_key(entries, key) {
        entries.remove(position(entries, key))
    } else {
        entries
    }
}

/// Where the keys are distinct, an entry under `key` at `i` is the entry that
/// `position` and `lookup` speak of.
pub proof fn lemma_position_unique<V>(entries: Seq<(Seq<char>, V)>, key: Seq<char>, i: int)
    requires
        distinct_keys(entries),
        0 <= i < entries.len(),
        entries[i].0 == key,
    ensures
        holds_key(entries, key),
        position(entries, key) == i,
        lookup(entries, key) == Some(entries[i].1),
{
}

/// The entries with each value replaced by its view.
pub open spec fn entry_views<V: View>(entries: Seq<(Seq<char>, V)>) -> Seq<(Seq<char>, V::V)> {
    Seq::new(entries.len(), |i: int| (entries[i].0, entries[i].1@))
}

/// The entries with each log replaced by the views of its items.
pub open spec fn entry_logs<T: View>(entries: Seq<(Seq<char>, Seq<T>)>) -> Seq<
    (Seq<char>, Seq<T::V>),
> {
    Seq::new(entries.len(), |i: int| (entries[i].0, crate::util::view::views(entries[i].1)))
}

/// Looking at the views of the items of every log changes nothing about the
/// keys.
pub proof fn lemma_entry_logs<T: View>(entries: Seq<(Seq<char>, Seq<T>)>, key: Seq<char>)
    requires
        distinct_keys(entries),
    ensures
        distinct_keys(entry_logs(entries)),
        holds_key(entry_logs(entries), key) == holds_key(entries, key),
        lookup(entry_logs(entries), key) == match lookup(entries, key) {
            Some(held) => Some(crate::util::view::views(held)),
            None => None,
        },
{
    let viewed = entry_logs(entries);
    if holds_key(entries, key) {
        let p = position(entries, key);
        lemma_position_unique(viewed, key, p);
    }
}

/// Putting a log under a key and looking at the views of the items comes to
/// the same in either order.
pub proof fn lemma_logs_upsert<T: View>(
    entries: Seq<(Seq<char>, Seq<T>)>,
    key: Seq<char>,
    log: Seq<T>,
)
    requires
        distinct_keys(entries),
    ensures
        entry_logs(upsert(entries, key, log)) == upsert(
            entry_logs(entries),
            key,
            crate::util::view::views(log),
        ),
{
    let viewed = entry_logs(entries);
    if holds_key(entries, key) {
        let p = position(entries, key);
        lemma_position_unique(viewed, key, p);
    }
}

/// A list of values under distinct string keys, in the order of their first
/// insertion.
#[derive(Debug)]
pub struct KeyedList<V> {
    entries: Vec<(String, V)>,
}

impl<V: View> View for KeyedList<V> {
    type V = Seq<(Seq<char>, V::V)>;

    open spec fn view(&self) -> Seq<(Seq<char>, V::V)> {
        entry_views(self.entries())
    }
}

impl<V> KeyedList<V> {
    #[verifier::type_invariant]
    closed spec fn well_formed(&self) -> bool {
        distinct_keys(self.entries())
    }

    /// The entries in order, each key as the sequence of its characters.
    pub closed spec fn entries(&self) -> Seq<(Seq<char>, V)> {
        Self::model(self.entries@)
    }

    spec fn model(stored: Seq<(String, V)>) -> Seq<(Seq<char>, V)> {
        Seq::new(stored.len(), |i: int| (stored[i].0@, stored[i].1))
    }
}

impl<V: View> KeyedList<V> {
    /// An empty list.
    pub fn new() -> (list: Self)
        ensures
            list.entries() == Seq::<(Seq<char>, V)>::empty(),
            list@ == Seq::<(Seq<char>, V::V)>::empty(),
    {
        let list = Self { entries: Vec::new() };
        list
    }

    /// The number of entries. Calling it also recalls that the keys are
    /// distinct.
    pub fn len(&self) -> (len: usize)
        ensures
            len == self.entries().len(),
            len == self@.len(),
            distinct_keys(self.entries()),
            distinct_keys(self@),
    {
        proof {
            use_type_invariant(self);
        }
        self.entries.len()
    }

    /// Whether the list holds no entry.
    pub fn is_empty(&self) -> (empty: bool)
        ensures
            empty == (self@.len() == 0),
    {
        self.entries.len() == 0
    }

    /// The place of the entry under `key`.
    pub fn find(&self, key: &str) -> (found: Option<usize>)
        ensures
            distinct_keys(self.entries()),
            distinct_keys(self@),
            found is Some == holds_key(self.entries(), key@),
            found is Some == holds_key(self@, key@),
            found is Some ==> found->0 < self@.len() && found->0 == position(
                self.entries(),
                key@,
            ) && found->0 == position(self@, key@),
    {
        proof {
            use_type_invariant(self);
        }
        let mut i: usize = 0;
        while i < self.entries.len()
            invariant
                i <= self.entries@.len(),
                forall|j: int| 0 <= j < i ==> (#[trigger] self.entries()[j]).0 != key@,
                distinct_keys(self.entries()),
                distinct_keys(self@),
            decreases self.entries@.len() - i,
        {
            if same_text(self.entries[i].0.as_str(), key) {
                proof {
                    lemma_position_unique(self@, key@, i as int);
                }
                return Some(i);
            }
            i += 1;
        }
        None
    }

    /// Whether an entry stands under `key`.
    pub fn contains_key(&self, key: &str) -> (held: bool)
        ensures
            held == holds_key(self@, key@),
    {
        self.find(key).is_some()
    }

    /// The value under `key`.
    pub fn get(&self, key: &str) -> (value: Option<&V>)
        ensures
            match value {
                Some(held) => lookup(self.entries(), key@) == Some(*held) && lookup(self@, key@)
                    == Some(held@),
                None => lookup(self.entries(), key@) is None && lookup(self@, key@) is None,
            },
    {
        match self.find(key) {
            Some(i) => Some(&self.entries[i].1),
            None => None,
        }
    }

    /// The key of the entry at `index`.
    pub fn key_at(&self, index: usize) -> (key: &String)
        requires
            index < self@.len(),
        ensures
            key@ == self@[index as int].0,
    {
        &self.entries[index].0
    }

    /// The value of the entry at `index`.
    pub fn value_at(&self, index: usize) -> (value: &V)
        requires
            index < self@.len(),
        ensures
            *value == self.entries()[index as int].1,
            value@ == self@[index as int].1,
    {
        &self.entries[index].1
    }

    /// Puts `value` in the place of the value at `index`; the key stays.
    pub fn replace_at(&mut self, index: usize, value: V)
        requires
            index < old(self)@.len(),
        ensures
            final(self).entries() == old(self).entries().update(
                index as int,
                (old(self).entries()[index as int].0, value),
            ),
            final(self)@ == old(self)@.update(index as int, (old(self)@[index as int].0, value@)),
    {
        let _ = self.exchange_at(index, value);
    }

    /// Hands out the value at `index` and takes `value` in its place; the key
    /// stays.
    pub fn exchange_at(&mut self, index: usize, value: V) -> (held: V)
        requires
            index < old(self)@.len(),
        ensures
            held == old(self).entries()[index as int].1,
            held@ == old(self)@[index as int].1,
            final(self).entries() == old(self).entries().update(
                index as int,
                (old(self).entries()[index as int].0, value),
            ),
            final(self)@ == old(self)@.update(index as int, (old(self)@[index as int].0, value@)),
    {
        proof {
            use_type_invariant(&*self);
        }
        let mut entries: Vec<(String, V)> = Vec::new();
        std::mem::swap(&mut self.entries, &mut entries);
        let (key, held) = entries.remove(index);
        entries.insert(index, (key, value));
        let ghost after = old(self).entries().update(
            index as int,
            (old(self).entries()[index as int].0, value),
        );
        assert(Self::model(entries@) =~= after);
        self.entries = entries;
        held
    }

    /// Puts `value` under `key`, in the place of the old value where the key
    /// is held already and at the end otherwise.
    pub fn insert(&mut self, key: String, value: V)
        ensures
            final(self).entries() == upsert(old(self).entries(), key@, value),
            final(self)@ == upsert(old(self)@, key@, value@),
    {
        let found = self.find(key.as_str());
        let mut entries: Vec<(String, V)> = Vec::new();
        std::mem::swap(&mut self.entries, &mut entries);
        match found {
            Some(i) => {
                entries.set(i, (key, value));
            },
            None => {
                entries.push((key, value));
            },
        }
        assert(Self::model(entries@) =~= upsert(old(self).entries(), key@, value));
        self.entries = entries;
    }

    /// Takes the entry under `key` out, if there is one.
    pub fn remove(&mut self, key: &str)
        ensures
            final(self).entries() == without(old(self).entries(), key@),
            final(self)@ == without(old(self)@, key@),
    {
        let found = self.find(key);
        let mut entries: Vec<(String, V)> = Vec::new();
        std::mem::swap(&mut self.entries, &mut entries);
        match found {
            Some(i) => {
                entries.remove(i);
            },
            None => {},
        }
        assert(Self::model(entries@) =~= without(old(self).entries(), key@));
        self.entries = entries;
    }
}

} // verus!
