//! An insertion-ordered table keyed by text.
//!
//! A table is a list of entries; a key that was inserted more than once
//! stands for the value inserted last.

use crate::text::{chars_of, same};
use vstd::prelude::*;

verus! {

/// A table from text keys to values.
#[derive(Debug)]
pub struct Table<V> {
    pub entries: Vec<(String, V)>,
}

/// What `key` stands for in a list of entries: the value of the last entry
/// with that key.
pub open spec fn lookup<X>(entries: Seq<(Seq<char>, X)>, key: Seq<char>) -> Option<X>
    decreases entries.len(),
{
    if entries.len() == 0 {
        None
    } else if entries.last().0 == key {
        Some(entries.last().1)
    } else {
        lookup(entries.drop_last(), key)
    }
}

/// After an insertion the key stands for the inserted value, and every
/// other key for what it stood for before.
pub proof fn lemma_lookup_after_insert<X>(
    entries: Seq<(Seq<char>, X)>,
    key: Seq<char>,
    value: X,
    other: Seq<char>,
)
    ensures
        lookup(entries.push((key, value)), key) == Some(value),
        other != key ==> lookup(entries.push((key, value)), other) == lookup(entries, other),
{
    let after = entries.push((key, value));
    assert(after.last() == (key, value));
    assert(after.drop_last() =~= entries);
}

/// An insertion registers its key and keeps every key that was registered.
pub proof fn lemma_push_keeps_keys<X>()
    ensures
        forall|entries: Seq<(Seq<char>, X)>, key: Seq<char>, value: X, other: Seq<char>|
            (other == key || lookup(entries, other) is Some) ==> (#[trigger] lookup(
                entries.push((key, value)),
                other,
            )) is Some,
{
    assert forall|entries: Seq<(Seq<char>, X)>, key: Seq<char>, value: X, other: Seq<char>|
        (other == key || lookup(entries, other) is Some) implies (#[trigger] lookup(
        entries.push((key, value)),
        other,
    )) is Some by {
        lemma_lookup_after_insert(entries, key, value, other);
    }
}

impl<V: DeepView> View for Table<V> {
    type V = Seq<(Seq<char>, V::V)>;

    open spec fn view(&self) -> Seq<(Seq<char>, V::V)> {
        Seq::new(
            self.entries@.len(),
            |i: int| (self.entries@[i].0@, self.entries@[i].1.deep_view()),
        )
    }
}

impl<V: DeepView> DeepView for Table<V> {
    type V = Seq<(Seq<char>, V::V)>;

    open spec fn deep_view(&self) -> Seq<(Seq<char>, V::V)> {
        self.view()
    }
}

impl<V: DeepView> Table<V> {
    /// An empty table.
    pub fn new() -> (r: Self)
        ensures
            r@ == Seq::<(Seq<char>, V::V)>::empty(),
    {
        let r = Table { entries: Vec::new() };
        assert(r@ =~= Seq::<(Seq<char>, V::V)>::empty());
        r
    }

    /// Lets `key` stand for `value` from now on.
    pub fn insert(&mut self, key: String, value: V)
        ensures
            final(self)@ == old(self)@.push((key@, value.deep_view())),
    {
        self.entries.push((key, value));
        assert(self@ =~= old(self)@.push((key@, value.deep_view())));
    }

    /// The number of entries that were inserted.
    pub fn len(&self) -> (r: usize)
        ensures
            r == self@.len(),
    {
        self.entries.len()
    }

    /// The value that `key` stands for.
    pub fn get(&self, key: &str) -> (r: Option<&V>)
        ensures
            match r {
                Some(v) => lookup(self@, key@) == Some(v.deep_view()),
                None => lookup(self@, key@) is None,
            },
    {
        let k = chars_of(key);
        let mut i: usize = self.entries.len();
        assert(self@.take(i as int) =~= self@);
        while i > 0
            invariant
                i <= self.entries.len(),
                k@ == key@,
                lookup(self@, key@) == lookup(self@.take(i as int), key@),
            decreases i,
        {
            assert(self@.take(i as int).drop_last() =~= self@.take(i - 1));
            let candidate = chars_of(self.entries[i - 1].0.as_str());
            if same(&candidate, &k) {
                return Some(&self.entries[i - 1].1);
            }
            i -= 1;
        }
        None
    }

    /// Whether `key` stands for a value.
    pub fn contains_key(&self, key: &str) -> (r: bool)
        ensures
            r == lookup(self@, key@).is_some(),
    {
        self.get(key).is_some()
    }
}

impl Table<String> {
    /// Lets the text `key` stand for the text `value` from now on.
    pub fn put(&mut self, key: &str, value: &str)
        ensures
            final(self)@ == old(self)@.push((key@, value@)),
    {
        self.insert(key.to_string(), value.to_string());
    }
}

} // verus!
