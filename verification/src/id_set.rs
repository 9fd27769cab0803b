//! A set of resource ids, kept in the hash set that the engine's utilities
//! provide.

use vstd::prelude::*;

verus! {

/// A set of resource ids. The ids are kept in a `bevy::utils::HashSet<u32>`,
/// of which nothing is known here but what the functions below state.
#[verifier::external_body]
pub struct IdSet {
    inner: bevy::utils::HashSet<u32>,
}

/// The ids that a set holds.
pub uninterp spec fn id_set_contents(set: IdSet) -> Set<u32>;

impl View for IdSet {
    type V = Set<u32>;

    open spec fn view(&self) -> Set<u32> {
        id_set_contents(*self)
    }
}

/// `Default::default` of `bevy::utils::HashSet<u32>`: the new set holds no id.
#[verifier::external_body]
fn hash_set_default() -> (set: IdSet)
    ensures
        id_set_contents(set) == Set::<u32>::empty(),
{
    IdSet { inner: bevy::utils::HashSet::default() }
}

/// `HashSet::insert`: the id is in the set afterwards and nothing else
/// changes; the result says whether the id was absent before.
#[verifier::external_body]
fn hash_set_insert(set: &mut IdSet, id: u32) -> (added: bool)
    ensures
        id_set_contents(*final(set)) == id_set_contents(*old(set)).insert(id),
        added == !id_set_contents(*old(set)).contains(id),
{
    set.inner.insert(id)
}

/// `HashSet::remove`: the id is not in the set afterwards and nothing else
/// changes; the result says whether the id was present before.
#[verifier::external_body]
fn hash_set_remove(set: &mut IdSet, id: u32) -> (removed: bool)
    ensures
        id_set_contents(*final(set)) == id_set_contents(*old(set)).remove(id),
        removed == id_set_contents(*old(set)).contains(id),
{
    set.inner.remove(&id)
}

/// `HashSet::contains`: whether the id is in the set.
#[verifier::external_body]
fn hash_set_contains(set: &IdSet, id: u32) -> (found: bool)
    ensures
        found == id_set_contents(*set).contains(id),
{
    set.inner.contains(&id)
}

/// `HashSet::iter`: every id of the set is visited once, in no stated order.
#[verifier::external_body]
fn hash_set_iter(set: &IdSet) -> (ids: Vec<u32>)
    ensures
        ids@.no_duplicates(),
        ids@.to_set() == id_set_contents(*set),
{
    set.inner.iter().copied().collect()
}

impl IdSet {
    /// An empty set.
    pub fn new() -> (set: IdSet)
        ensures
            set@ == Set::<u32>::empty(),
    {
        hash_set_default()
    }

    /// Adds `id`; returns whether it was absent before.
    pub fn insert(&mut self, id: u32) -> (added: bool)
        ensures
            final(self)@ == old(self)@.insert(id),
            added == !old(self)@.contains(id),
    {
        hash_set_insert(self, id)
    }

    /// Removes `id`; returns whether it was present before.
    pub fn remove(&mut self, id: u32) -> (removed: bool)
        ensures
            final(self)@ == old(self)@.remove(id),
            removed == old(self)@.contains(id),
    {
        hash_set_remove(self, id)
    }

    /// Whether `id` is in the set.
    pub fn contains(&self, id: u32) -> (found: bool)
        ensures
            found == self@.contains(id),
    {
        hash_set_contains(self, id)
    }

    /// The ids of the set, each once, in no particular order.
    pub fn to_vec(&self) -> (ids: Vec<u32>)
        ensures
            ids@.no_duplicates(),
            ids@.to_set() == self@,
    {
        hash_set_iter(self)
    }
}

} // verus!
