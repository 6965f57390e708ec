//! The pool proxy: the externally owned resources and their administrator
//! capability.
//!
//! A pool is the single source of truth for who may change its administrator:
//! [`set_admin`] is a pass-through to the pool's own check and performs no
//! local validation. The protocol relies on exactly this when a transfer is
//! proposed — handing custody to the protocol only succeeds when the pool
//! itself still recognizes the proposer as its administrator.

use vstd::prelude::*;

use crate::env::{Address, Env, EnvView};
use crate::errors::ContractError;

verus! {

broadcast use vstd::std_specs::hash::group_hash_axioms;

/// The pool's administrator, or absent when no such pool exists.
pub open spec fn spec_pool_admin(v: EnvView, pool: Address) -> Option<Address> {
    if v.pools.dom().contains(pool) {
        Some(v.pools[pool])
    } else {
        None
    }
}

/// What the pool's administrator capability decides: the reassignment goes
/// through exactly when the pool exists and its current administrator is the
/// identity the call was made as; otherwise the pool rejects it and nothing
/// changes.
pub open spec fn set_admin_step(
    v: EnvView,
    caller: Address,
    pool: Address,
    new_admin: Address,
) -> (EnvView, Result<(), ContractError>) {
    if v.pools.dom().contains(pool) && v.pools[pool] == caller {
        (EnvView { pools: v.pools.insert(pool, new_admin), ..v }, Ok(()))
    } else {
        (v, Err(ContractError::ResourceRejected))
    }
}

/// Bring a freshly deployed pool, administered by `admin`, into the
/// environment.
pub fn register_pool(e: &mut Env, pool: Address, admin: Address)
    requires
        !old(e)@.pools.dom().contains(pool),
    ensures
        final(e)@ == (EnvView { pools: old(e)@.pools.insert(pool, admin), ..old(e)@ }),
        old(e)@.wf() ==> final(e)@.wf(),
{
    e.pools.insert(pool, admin);
}

/// Query the pool's current administrator.
pub fn get_admin(e: &Env, pool: Address) -> (r: Option<Address>)
    ensures
        r == spec_pool_admin(e@, pool),
{
    match e.pools.get(&pool) {
        Some(a) => Some(*a),
        None => None,
    }
}

/// Reassign the pool's administrator to `new_admin`, calling as `caller`.
/// The pool enforces its own rule: only its current administrator may do so.
pub fn set_admin(e: &mut Env, caller: Address, pool: Address, new_admin: Address) -> (r: Result<
    (),
    ContractError,
>)
    ensures
        (final(e)@, r) == set_admin_step(old(e)@, caller, pool, new_admin),
{
    let cur: Option<Address> = match e.pools.get(&pool) {
        Some(a) => Some(*a),
        None => None,
    };
    match cur {
        Some(a) => {
            if a == caller {
                e.pools.insert(pool, new_admin);
                Ok(())
            } else {
                Err(ContractError::ResourceRejected)
            }
        },
        None => Err(ContractError::ResourceRejected),
    }
}

} // verus!
