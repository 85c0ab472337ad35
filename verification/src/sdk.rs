//! A minimal stand-in for the parts of the Soroban SDK the lints match on:
//! an `Env` handle with storage and ledger accessors, and value conversions.
//! It holds no state: reads find nothing and writes are dropped.

pub mod ledger;
pub mod storage;

use vstd::prelude::*;

verus! {

/// The environment handle of a contract invocation.
#[derive(Clone, Copy)]
pub struct Env;

impl Env {
    /// The storage accessor.
    pub fn storage(&self) -> (r: storage::Storage)
        ensures
            r == storage::Storage,
    {
        storage::Storage
    }

    /// The ledger accessor.
    pub fn ledger(&self) -> (r: ledger::Ledger)
        ensures
            r == ledger::Ledger,
    {
        ledger::Ledger
    }
}

/// A value passed across the host boundary.
pub struct Val;

/// Conversion into a host value.
pub trait IntoVal<E, V> {
    /// The value that `self` converts to in `env`.
    spec fn converted(&self, env: &E) -> V;

    fn into_val(&self, env: &E) -> (r: V)
        ensures
            r == self.converted(env),
    ;
}

/// Conversion from a host value.
pub trait TryFromVal<E, V>: Sized {
    type Error;

    fn try_from_val(env: &E, v: &V) -> Result<Self, Self::Error>;
}

impl IntoVal<Env, Val> for u32 {
    open spec fn converted(&self, env: &Env) -> Val {
        Val
    }

    fn into_val(&self, env: &Env) -> Val {
        Val
    }
}

impl IntoVal<Env, u32> for u32 {
    /// A `u32` converts to itself.
    open spec fn converted(&self, env: &Env) -> u32 {
        *self
    }

    fn into_val(&self, env: &Env) -> u32 {
        *self
    }
}

impl TryFromVal<Env, Val> for u32 {
    type Error = ();

    fn try_from_val(env: &Env, v: &Val) -> (r: Result<u32, ()>)
        ensures
            r == Ok::<u32, ()>(0),
    {
        Ok(0)
    }
}

/// A contract type that holds an `Env` in a field.
pub struct MyStruct {
    pub env: Env,
}

} // verus!
