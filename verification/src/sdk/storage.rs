//! The storage accessors: every read finds nothing, every write and TTL
//! extension is dropped.

use vstd::prelude::*;

verus! {

/// The storage accessor of an `Env`.
#[derive(Clone, Copy)]
pub struct Storage;

impl Storage {
    /// Instance storage.
    pub fn instance(&self) -> (r: Instance)
        ensures
            r == Instance,
    {
        Instance
    }

    /// Persistent storage.
    pub fn persistent(&self) -> (r: Persistent)
        ensures
            r == Persistent,
    {
        Persistent
    }

    /// Temporary storage.
    pub fn temporary(&self) -> (r: Temporary)
        ensures
            r == Temporary,
    {
        Temporary
    }
}

/// Instance storage.
#[derive(Clone, Copy)]
pub struct Instance;

impl Instance {
    /// The value stored under `k`: none here.
    pub fn get<K: ?Sized, V>(&self, k: &K) -> (r: Option<V>)
        ensures
            r is None,
    {
        None
    }

    /// Stores `v` under `k`; dropped here.
    pub fn set<K: ?Sized, V>(&self, k: &K, v: &V) {
    }

    /// Whether a value is stored under `k`: never here.
    pub fn has<K>(&self, k: &K) -> (r: bool)
        ensures
            !r,
    {
        false
    }

    /// Extends the instance's time to live; dropped here.
    pub fn extend_ttl(&self, threshold: u32, extend_to: u32) {
    }
}

/// Persistent storage.
#[derive(Clone, Copy)]
pub struct Persistent;

impl Persistent {
    /// The value stored under `k`: none here.
    pub fn get<K, V>(&self, k: &K) -> (r: Option<V>)
        ensures
            r is None,
    {
        None
    }

    /// Stores `v` under `k`; dropped here.
    pub fn set<K, V>(&self, k: &K, v: &V) {
    }

    /// Whether a value is stored under `k`: never here.
    pub fn has<K>(&self, k: &K) -> (r: bool)
        ensures
            !r,
    {
        false
    }

    /// Extends the time to live of the entry under `key`; dropped here.
    pub fn extend_ttl<K: ?Sized>(&self, key: &K, threshold: u32, extend_to: u32) {
    }
}

/// Temporary storage.
#[derive(Clone, Copy)]
pub struct Temporary;

impl Temporary {
    /// The value stored under `k`: none here.
    pub fn get<K, V>(&self, k: &K) -> (r: Option<V>)
        ensures
            r is None,
    {
        None
    }

    /// Stores `v` under `k`; dropped here.
    pub fn set<K, V>(&self, k: &K, v: &V) {
    }

    /// Whether a value is stored under `k`: never here.
    pub fn has<K>(&self, k: &K) -> (r: bool)
        ensures
            !r,
    {
        false
    }

    /// Extends the time to live of the entry under `key`; dropped here.
    pub fn extend_ttl<K: ?Sized>(&self, key: &K, threshold: u32, extend_to: u32) {
    }
}

} // verus!
