//! The store of side context that a host hands to the functions of a program:
//! at most one value of each type, found again by its type.

use vstd::prelude::*;
use anymap::AnyMap;

verus! {

/// A store that holds at most one value of each type. The values are kept by
/// `anymap::Map`, keyed by their type.
#[derive(Debug)]
#[verifier::external_body]
pub struct ContextStore {
    inner: AnyMap,
}

/// The number of types of which a store holds a value.
pub uninterp spec fn stored_types(store: ContextStore) -> nat;

/// `anymap::Map::new`: a store that holds no value.
#[verifier::external_body]
fn store_new() -> (store: ContextStore)
    ensures
        stored_types(store) == 0,
{
    ContextStore { inner: AnyMap::new() }
}

/// `anymap::Map::len`: the number of types of which the store holds a value.
#[verifier::external_body]
fn store_len(store: &ContextStore) -> (n: usize)
    ensures
        n == stored_types(*store),
{
    store.inner.len()
}

/// `anymap::Map::insert`: puts `data` in the place of the value of type `T`
/// and returns the value that was there. Where none was there, the store
/// holds a value of one more type than before. Where one was there, the
/// store holds values of as many types as before, and it was not empty: the
/// value that comes back was in it.
#[verifier::external_body]
fn store_insert<T: 'static>(store: &mut ContextStore, data: T) -> (previous: Option<T>)
    ensures
        previous.is_none() ==> stored_types(*final(store)) == stored_types(*old(store)) + 1,
        previous.is_some() ==> stored_types(*final(store)) == stored_types(*old(store)),
        previous.is_some() ==> stored_types(*old(store)) > 0,
{
    store.inner.insert::<T>(data)
}

/// `anymap::Map::get`: the value of type `T`, where the store holds one. A
/// store that holds no value gives none.
#[verifier::external_body]
fn store_get<T: 'static>(store: &ContextStore) -> (found: Option<&T>)
    ensures
        found.is_some() ==> stored_types(*store) > 0,
{
    store.inner.get::<T>()
}

impl ContextStore {
    /// A store that holds no value.
    pub fn new() -> (store: ContextStore)
        ensures
            stored_types(store) == 0,
    {
        store_new()
    }

    /// The number of types of which the store holds a value.
    pub fn len(&self) -> (n: usize)
        ensures
            n == stored_types(*self),
    {
        store_len(self)
    }

    /// Whether the store holds no value.
    pub fn is_empty(&self) -> (empty: bool)
        ensures
            empty == (stored_types(*self) == 0),
    {
        store_len(self) == 0
    }

    /// Stores `data` as the value of type `T` and returns the value of that
    /// type that the store held before. See `count_after_insert` for what
    /// becomes of the number of stored types.
    pub fn insert<T: 'static>(&mut self, data: T) -> (previous: Option<T>)
        ensures
            count_after_insert(
                stored_types(*old(self)),
                stored_types(*final(self)),
                previous.is_some(),
            ),
    {
        store_insert::<T>(self, data)
    }

    /// The value of type `T`, where the store holds one.
    pub fn get<T: 'static>(&self) -> (found: Option<&T>)
        ensures
            found.is_some() ==> stored_types(*self) > 0,
    {
        store_get::<T>(self)
    }
}

/// How the number of stored types changes when a value is put into a store:
/// where a value of the same type was there, it is replaced, the number stays
/// and was not zero; where none was there, the number grows by one. Either
/// way the store is not empty afterwards.
pub open spec fn count_after_insert(before: nat, after: nat, replaced: bool) -> bool {
    if replaced {
        before > 0 && after == before
    } else {
        after == before + 1
    }
}

/// A store into which a value was put holds at least one type, and at most
/// one more than before.
pub proof fn lemma_insert_leaves_store_inhabited(before: nat, after: nat, replaced: bool)
    requires
        count_after_insert(before, after, replaced),
    ensures
        after > 0,
        before <= after <= before + 1,
{
}

} // verus!
