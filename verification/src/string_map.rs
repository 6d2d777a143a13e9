//! A map keyed by strings, seen in contracts as a map from sequences of
//! characters.

use vstd::hash_map::StringHashMap;
use vstd::prelude::*;

verus! {

/// A hash map whose keys are strings.
#[verifier::reject_recursive_types(V)]
pub struct StringMap<V> {
    inner: StringHashMap<V>,
}

impl<V> View for StringMap<V> {
    type V = Map<Seq<char>, V>;

    closed spec fn view(&self) -> Map<Seq<char>, V> {
        self.inner@
    }
}

impl<V> StringMap<V> {
    /// A map without entries.
    pub fn new() -> (r: StringMap<V>)
        ensures
            r@ == Map::<Seq<char>, V>::empty(),
    {
        StringMap { inner: StringHashMap::new() }
    }

    /// Whether `key` has an entry.
    pub fn contains_key(&self, key: &str) -> (r: bool)
        ensures
            r == self@.contains_key(key@),
    {
        self.inner.contains_key(key)
    }

    /// The value of `key`, if it has an entry.
    pub fn get(&self, key: &str) -> (r: Option<&V>)
        ensures
            match r {
                Some(v) => self@.contains_key(key@) && *v == self@[key@],
                None => !self@.contains_key(key@),
            },
    {
        self.inner.get(key)
    }

    /// Sets the value of `key`; the result tells whether `key` was new.
    pub fn insert(&mut self, key: String, value: V) -> (fresh: bool)
        ensures
            fresh == !old(self)@.contains_key(key@),
            final(self)@ == old(self)@.insert(key@, value),
    {
        let fresh = !self.inner.contains_key(key.as_str());
        self.inner.insert(key, value);
        fresh
    }

    /// Drops the entry of `key`, if it has one.
    pub fn remove(&mut self, key: &str)
        ensures
            final(self)@ == old(self)@.remove(key@),
    {
        self.inner.remove(key)
    }
}

} // verus!
