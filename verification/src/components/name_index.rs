//! The index of a registry: for each registered name, the slot of its entry.
//!
//! The index is a hash map of the `hashbrown` crate. Nothing here is proved:
//! each function calls one method of that map and states what the method's
//! documentation says of it.

use vstd::prelude::*;

verus! {

/// A `hashbrown::HashMap` from names to slots.
#[verifier::external_body]
pub struct NameIndex {
    map: hashbrown::HashMap<String, usize>,
}

/// What the index holds: the slot of each name in it.
pub uninterp spec fn slots(index: NameIndex) -> Map<Seq<char>, usize>;

impl NameIndex {
    /// `HashMap::new`: a map that holds nothing.
    #[verifier::external_body]
    pub(crate) fn new() -> (index: NameIndex)
        ensures
            slots(index).dom() == Set::<Seq<char>>::empty(),
    {
        NameIndex { map: hashbrown::HashMap::new() }
    }

    /// `HashMap::contains_key`: whether the map holds the key.
    #[verifier::external_body]
    pub(crate) fn contains_key(&self, name: &String) -> (found: bool)
        ensures
            found == slots(*self).contains_key(name@),
    {
        self.map.contains_key(name)
    }

    /// `HashMap::get`: the value that the map holds for the key, if any.
    #[verifier::external_body]
    pub(crate) fn get(&self, name: &String) -> (slot: Option<usize>)
        ensures
            slot == (if slots(*self).contains_key(name@) {
                Some(slots(*self)[name@])
            } else {
                None
            }),
    {
        self.map.get(name).copied()
    }

    /// `HashMap::insert`: afterwards the map holds the value for the key and
    /// is otherwise as before; the value that the key had before comes back.
    #[verifier::external_body]
    pub(crate) fn insert(&mut self, name: String, slot: usize) -> (previous: Option<usize>)
        ensures
            slots(*final(self)) == slots(*old(self)).insert(name@, slot),
            previous == (if slots(*old(self)).contains_key(name@) {
                Some(slots(*old(self))[name@])
            } else {
                None
            }),
    {
        self.map.insert(name, slot)
    }

    /// `HashMap::remove`: afterwards the map does not hold the key and is
    /// otherwise as before; the value that the key had comes back.
    #[verifier::external_body]
    pub(crate) fn remove(&mut self, name: &String) -> (previous: Option<usize>)
        ensures
            slots(*final(self)) == slots(*old(self)).remove(name@),
            previous == (if slots(*old(self)).contains_key(name@) {
                Some(slots(*old(self))[name@])
            } else {
                None
            }),
    {
        self.map.remove(name)
    }
}

} // verus!
