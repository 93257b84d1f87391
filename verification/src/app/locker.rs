//! Per-tag locks: one asynchronous mutex per tag, created on first use.

use vstd::prelude::*;
use std::hash::Hash;
use std::sync::Arc;

verus! {

/// `dashmap::DashMap`, a concurrent hash map, carried opaquely.
#[verifier::external_type_specification]
#[verifier::external_body]
#[verifier::reject_recursive_types(K)]
#[verifier::reject_recursive_types(V)]
#[verifier::reject_recursive_types(S)]
pub struct ExDashMap<K, V, S>(dashmap::DashMap<K, V, S>);

/// `tokio::sync::Mutex`, an asynchronous mutex, carried opaquely.
#[verifier::external_type_specification]
#[verifier::external_body]
#[verifier::reject_recursive_types(T)]
pub struct ExTokioMutex<T: ?Sized>(tokio::sync::Mutex<T>);

/// The lock of one tag.
pub type TagMutex = Arc<tokio::sync::Mutex<()>>;

/// Calls `dashmap::DashMap::new`.
///
/// A `DashMap` changes behind shared references, which Verus's model of
/// `&` cannot follow, so nothing is stated of its contents.
#[verifier::external_body]
fn dashmap_new<K: Eq + Hash>() -> dashmap::DashMap<K, TagMutex> {
    dashmap::DashMap::new()
}

/// Calls `tokio::sync::Mutex::new` on `()`: a new, unlocked mutex.
#[verifier::external_body]
fn tokio_mutex_new() -> tokio::sync::Mutex<()> {
    tokio::sync::Mutex::new(())
}

/// Calls `dashmap::DashMap::entry(tag).or_insert_with(new_tag_mutex)` and
/// clones the `Arc` it finds: the mutex stored for `tag`, stored first if
/// there was none. The map changes behind a shared reference, which Verus's
/// model of `&` cannot follow, so nothing is stated of which mutex comes back.
#[verifier::external_body]
fn dashmap_get_or_insert<K: Eq + Hash>(locks: &dashmap::DashMap<K, TagMutex>, tag: K) -> TagMutex {
    locks.entry(tag).or_insert_with(new_tag_mutex).value().clone()
}

/// A new, unlocked lock for a tag.
pub fn new_tag_mutex() -> TagMutex {
    Arc::new(tokio_mutex_new())
}

/// One mutex per tag: holders of the lock of a tag exclude each other, and
/// tags do not block each other.
#[verifier::reject_recursive_types(K)]
pub struct TagLock<K> {
    locks: dashmap::DashMap<K, TagMutex>,
}

impl<K: Eq + Hash> TagLock<K> {
    /// A lock table with no tag yet.
    pub fn new() -> Self {
        TagLock { locks: dashmap_new() }
    }

    /// The mutex of `tag`, created on first use; locking it is left to the
    /// caller, which awaits it.
    pub fn lock_for(&self, tag: K) -> TagMutex {
        dashmap_get_or_insert(&self.locks, tag)
    }
}

} // verus!
