//! A hash map whose insertion reserves its room first and reports a failed
//! allocation instead of aborting.
//!
//! The table itself is `hashbrown`'s. What it holds is not modelled here: the
//! contracts below speak of the reservation and of what becomes of its
//! outcome, not of the entries.

use vstd::prelude::*;
use std::borrow::Borrow;
use std::hash::Hash;

verus! {

/// Why the table could not make room.
#[derive(Clone, Copy, Debug, PartialEq, Eq, Structural)]
pub enum TableReserveError {
    /// The room asked for is more than a table can ever have.
    CapacityOverflow,
    /// The allocator refused a request of `size` bytes, aligned to `align`.
    AllocError { size: usize, align: usize },
}

/// A hash map with a fallible `insert`, held in a `hashbrown::HashMap`.
#[verifier::external_body]
#[verifier::reject_recursive_types(K)]
#[verifier::reject_recursive_types(V)]
pub struct TryHashMap<K, V> {
    inner: hashbrown::HashMap<K, V>,
}

/// `hashbrown::HashMap::default`: a table with no entries. Nothing is claimed
/// of it.
#[verifier::external_body]
fn table_default<K, V>() -> TryHashMap<K, V> {
    TryHashMap { inner: hashbrown::HashMap::default() }
}

/// `hashbrown::HashMap::capacity`: a lower bound of the number of entries
/// that the table can hold without allocating. Nothing is claimed of it.
#[verifier::external_body]
fn table_capacity<K, V>(map: &TryHashMap<K, V>) -> usize {
    map.inner.capacity()
}

/// `hashbrown::HashMap::try_reserve`: tries to make room for `additional`
/// more entries. Its error comes back variant for variant, the layout as its
/// size and alignment. Nothing is claimed of the outcome.
#[verifier::external_body]
fn table_try_reserve<K: Eq + Hash, V>(map: &mut TryHashMap<K, V>, additional: usize) -> Result<
    (),
    TableReserveError,
> {
    match map.inner.try_reserve(additional) {
        Ok(()) => Ok(()),
        Err(hashbrown::TryReserveError::CapacityOverflow) => Err(TableReserveError::CapacityOverflow),
        Err(hashbrown::TryReserveError::AllocError { layout }) => Err(
            TableReserveError::AllocError { size: layout.size(), align: layout.align() },
        ),
    }
}

/// `hashbrown::HashMap::insert`: puts `v` under `k` and hands out the value
/// that was there, if any. Nothing is claimed of what comes out.
#[verifier::external_body]
fn table_insert<K: Eq + Hash, V>(map: &mut TryHashMap<K, V>, k: K, v: V) -> Option<V> {
    map.inner.insert(k, v)
}

/// `hashbrown::HashMap::get`: the value under `k`, if any. Nothing is
/// claimed of what comes out.
#[verifier::external_body]
fn table_get<'a, K: Eq + Hash + Borrow<Q>, V, Q: Hash + Eq + ?Sized>(
    map: &'a TryHashMap<K, V>,
    k: &Q,
) -> Option<&'a V> {
    map.inner.get(k)
}

/// The number of slots to ask for before an insertion: four for a table that
/// has no room at all, else one.
pub fn reserve_request(capacity: usize) -> (additional: usize)
    ensures
        additional == if capacity == 0 { 4usize } else { 1usize },
{
    if capacity == 0 {
        4
    } else {
        1
    }
}

impl<K, V> Default for TryHashMap<K, V> {
    fn default() -> Self {
        table_default()
    }
}

impl<K: Eq + Hash, V> TryHashMap<K, V> {
    /// The value under `k`, if there is one.
    pub fn get<Q: Hash + Eq + ?Sized>(&self, k: &Q) -> Option<&V> where K: Borrow<Q> {
        table_get(self, k)
    }

    /// Puts `v` under `k` after reserving room: four slots where the table
    /// has none, else one. Where the room cannot be had the error comes back.
    pub fn insert(&mut self, k: K, v: V) -> Result<Option<V>, TableReserveError> {
        let capacity = table_capacity(self);
        let reserved = self.reserve(reserve_request(capacity));
        self.insert_reserved(k, v, reserved)
    }

    /// Completes an insertion, given the outcome of the reservation: with the
    /// room had, the entry goes in and the value that it replaces comes out;
    /// without it, the error is handed on.
    pub fn insert_reserved(&mut self, k: K, v: V, reserved: Result<(), TableReserveError>) -> (r:
        Result<Option<V>, TableReserveError>)
        ensures
            reserved is Ok ==> r is Ok,
            reserved matches Err(e) ==> r == Err::<Option<V>, TableReserveError>(e),
    {
        match reserved {
            Ok(_) => Ok(table_insert(self, k, v)),
            Err(e) => Err(e),
        }
    }

    /// Tries to make room for `additional` more entries; room for none is always there.
    pub fn reserve(&mut self, additional: usize) -> (r: Result<(), TableReserveError>)
        ensures
            additional == 0 ==> r is Ok,
    {
        if additional == 0 {
            Ok(())
        } else {
            table_try_reserve(self, additional)
        }
    }
}

} // verus!
