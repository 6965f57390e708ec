//! The laws the transfer state machine obeys.
//!
//! Each law is stated over the step functions of [`crate::contract`] — the
//! complete functional behavior the executable operations are proved to
//! compute — so it holds of every sequence of calls on every environment.

use vstd::prelude::*;

use crate::contract::{accept_step, cancel_step, propose_step};
use crate::env::{Address, EnvView};
use crate::errors::ContractError;
use crate::pool::spec_pool_admin;
use crate::storage::{spec_get_transfer, TransferData, LEDGER_BUMP_SHARED, LEDGER_BUMP_TRANSFER};

verus! {

/// Custody: while a transfer record exists for a pool, that pool's
/// administrator is the protocol itself.
pub open spec fn custody_inv(v: EnvView) -> bool {
    forall|p: Address|
        #[trigger] v.records.dom().contains(p) ==> v.pools.dom().contains(p) && v.pools[p]
            == v.contract_address
}

/// After a successful proposal, the record the query returns holds exactly
/// the proposed authorities: `cur_admin` as the proposer and `new_admin` as
/// the designated recipient.
pub proof fn proposed_transfer_is_recorded(
    v: EnvView,
    caller: Address,
    pool: Address,
    cur_admin: Address,
    new_admin: Address,
)
    requires
        propose_step(v, caller, pool, cur_admin, new_admin).1 is Ok,
    ensures
        spec_get_transfer(propose_step(v, caller, pool, cur_admin, new_admin).0, pool) == Some(
            TransferData { cur_admin, new_admin },
        ),
{
}

/// While a transfer is pending for a pool, every further proposal for it
/// fails with `TransferAlreadyPending` — whoever calls, and whatever
/// authorities it names — and changes nothing.
pub proof fn propose_while_pending_fails(
    v: EnvView,
    caller: Address,
    pool: Address,
    cur_admin: Address,
    new_admin: Address,
)
    requires
        v.records.dom().contains(pool),
    ensures
        propose_step(v, caller, pool, cur_admin, new_admin) == (
            v,
            Err::<(), ContractError>(ContractError::TransferAlreadyPending),
        ),
{
}

/// While no transfer is pending for a pool, accept and cancel both fail with
/// `NoTransferPending` — whoever calls — and change nothing.
pub proof fn accept_cancel_without_pending_fail(v: EnvView, caller: Address, pool: Address)
    requires
        !v.records.dom().contains(pool),
    ensures
        accept_step(v, caller, pool) == (
            v,
            Err::<(), ContractError>(ContractError::NoTransferPending),
        ),
        cancel_step(v, caller, pool) == (
            v,
            Err::<(), ContractError>(ContractError::NoTransferPending),
        ),
{
}

/// An accept by anyone other than the pending record's designated new admin
/// fails with `Unauthorized` and leaves the record — and everything else —
/// unchanged.
pub proof fn accept_by_wrong_caller_fails(v: EnvView, caller: Address, pool: Address)
    requires
        v.records.dom().contains(pool),
        caller != v.records[pool].data.new_admin,
    ensures
        accept_step(v, caller, pool) == (v, Err::<(), ContractError>(ContractError::Unauthorized)),
{
}

/// A cancel by anyone other than the pending record's proposer fails with
/// `Unauthorized` and leaves the record — and everything else — unchanged.
pub proof fn cancel_by_wrong_caller_fails(v: EnvView, caller: Address, pool: Address)
    requires
        v.records.dom().contains(pool),
        caller != v.records[pool].data.cur_admin,
    ensures
        cancel_step(v, caller, pool) == (v, Err::<(), ContractError>(ContractError::Unauthorized)),
{
}

/// After a successful accept, no transfer is pending for the pool and its
/// administrator is the former record's designated new admin.
pub proof fn accept_hands_pool_to_new_admin(v: EnvView, caller: Address, pool: Address)
    requires
        accept_step(v, caller, pool).1 is Ok,
    ensures
        spec_get_transfer(accept_step(v, caller, pool).0, pool) is None,
        spec_pool_admin(accept_step(v, caller, pool).0, pool) == Some(
            v.records[pool].data.new_admin,
        ),
{
}

/// After a successful cancel, no transfer is pending for the pool and its
/// administrator is back to the former record's proposer.
pub proof fn cancel_hands_pool_back(v: EnvView, caller: Address, pool: Address)
    requires
        cancel_step(v, caller, pool).1 is Ok,
    ensures
        spec_get_transfer(cancel_step(v, caller, pool).0, pool) is None,
        spec_pool_admin(cancel_step(v, caller, pool).0, pool) == Some(
            v.records[pool].data.cur_admin,
        ),
{
}

/// Round trip: after a successful proposal, the proposer can cancel it and
/// immediately propose again for the same pool — with any candidate — and the
/// new proposal succeeds and records exactly the new authorities.
pub proof fn propose_cancel_propose_round_trip(
    v: EnvView,
    pool: Address,
    cur_admin: Address,
    first_candidate: Address,
    second_candidate: Address,
)
    requires
        propose_step(v, cur_admin, pool, cur_admin, first_candidate).1 is Ok,
    ensures
        ({
            let v1 = propose_step(v, cur_admin, pool, cur_admin, first_candidate).0;
            let (v2, r2) = cancel_step(v1, cur_admin, pool);
            let (v3, r3) = propose_step(v2, cur_admin, pool, cur_admin, second_candidate);
            &&& r2 is Ok
            &&& r3 is Ok
            &&& spec_get_transfer(v3, pool) == Some(
                TransferData { cur_admin, new_admin: second_candidate },
            )
        }),
{
}

/// When a proposal is owed success: exactly when no transfer is pending for
/// the pool, the caller is the named current authority, and the pool's
/// administrator is that authority. Each failure comes on exactly one input
/// class, in the checking order pending, authentication, pool.
pub proof fn propose_outcome_characterized(
    v: EnvView,
    caller: Address,
    pool: Address,
    cur_admin: Address,
    new_admin: Address,
)
    ensures
        ({
            let r = propose_step(v, caller, pool, cur_admin, new_admin).1;
            &&& r is Ok <==> (!v.records.dom().contains(pool) && caller == cur_admin
                && spec_pool_admin(v, pool) == Some(cur_admin))
            &&& r == Err::<(), ContractError>(ContractError::TransferAlreadyPending)
                <==> v.records.dom().contains(pool)
            &&& r == Err::<(), ContractError>(ContractError::Unauthorized) <==> (
            !v.records.dom().contains(pool) && caller != cur_admin)
            &&& r == Err::<(), ContractError>(ContractError::ResourceRejected) <==> (
            !v.records.dom().contains(pool) && caller == cur_admin && spec_pool_admin(v, pool)
                != Some(cur_admin))
        }),
{
}

/// When an accept is owed success: exactly when a transfer is pending for the
/// pool, the caller is its designated new admin, and the pool is still in the
/// protocol's custody. Each failure comes on exactly one input class, in the
/// checking order pending, authentication, pool.
pub proof fn accept_outcome_characterized(v: EnvView, caller: Address, pool: Address)
    ensures
        ({
            let r = accept_step(v, caller, pool).1;
            &&& r is Ok <==> (v.records.dom().contains(pool) && caller
                == v.records[pool].data.new_admin && spec_pool_admin(v, pool) == Some(
                v.contract_address,
            ))
            &&& r == Err::<(), ContractError>(ContractError::NoTransferPending)
                <==> !v.records.dom().contains(pool)
            &&& r == Err::<(), ContractError>(ContractError::Unauthorized) <==> (
            v.records.dom().contains(pool) && caller != v.records[pool].data.new_admin)
            &&& r == Err::<(), ContractError>(ContractError::ResourceRejected) <==> (
            v.records.dom().contains(pool) && caller == v.records[pool].data.new_admin
                && spec_pool_admin(v, pool) != Some(v.contract_address))
        }),
{
}

/// When a cancel is owed success: exactly when a transfer is pending for the
/// pool, the caller is its proposer, and the pool is still in the protocol's
/// custody. Each failure comes on exactly one input class, in the checking
/// order pending, authentication, pool.
pub proof fn cancel_outcome_characterized(v: EnvView, caller: Address, pool: Address)
    ensures
        ({
            let r = cancel_step(v, caller, pool).1;
            &&& r is Ok <==> (v.records.dom().contains(pool) && caller
                == v.records[pool].data.cur_admin && spec_pool_admin(v, pool) == Some(
                v.contract_address,
            ))
            &&& r == Err::<(), ContractError>(ContractError::NoTransferPending)
                <==> !v.records.dom().contains(pool)
            &&& r == Err::<(), ContractError>(ContractError::Unauthorized) <==> (
            v.records.dom().contains(pool) && caller != v.records[pool].data.cur_admin)
            &&& r == Err::<(), ContractError>(ContractError::ResourceRejected) <==> (
            v.records.dom().contains(pool) && caller == v.records[pool].data.cur_admin
                && spec_pool_admin(v, pool) != Some(v.contract_address))
        }),
{
}

/// Isolation: an operation on one pool never touches another pool's record or
/// administrator, whether it succeeds or fails.
pub proof fn operations_touch_only_their_pool(
    v: EnvView,
    caller: Address,
    pool: Address,
    cur_admin: Address,
    new_admin: Address,
    other: Address,
)
    requires
        other != pool,
    ensures
        spec_get_transfer(propose_step(v, caller, pool, cur_admin, new_admin).0, other)
            == spec_get_transfer(v, other),
        spec_pool_admin(propose_step(v, caller, pool, cur_admin, new_admin).0, other)
            == spec_pool_admin(v, other),
        spec_get_transfer(accept_step(v, caller, pool).0, other) == spec_get_transfer(v, other),
        spec_pool_admin(accept_step(v, caller, pool).0, other) == spec_pool_admin(v, other),
        spec_get_transfer(cancel_step(v, caller, pool).0, other) == spec_get_transfer(v, other),
        spec_pool_admin(cancel_step(v, caller, pool).0, other) == spec_pool_admin(v, other),
{
}

/// The custody invariant is preserved by every proposal, successful or not:
/// a successful one parks the pool's admin role with the protocol as it
/// creates the record.
pub proof fn custody_preserved_by_propose(
    v: EnvView,
    caller: Address,
    pool: Address,
    cur_admin: Address,
    new_admin: Address,
)
    requires
        custody_inv(v),
    ensures
        custody_inv(propose_step(v, caller, pool, cur_admin, new_admin).0),
{
}

/// The custody invariant is preserved by every accept, successful or not: a
/// successful one releases the pool together with its record.
pub proof fn custody_preserved_by_accept(v: EnvView, caller: Address, pool: Address)
    requires
        custody_inv(v),
    ensures
        custody_inv(accept_step(v, caller, pool).0),
{
}

/// The custody invariant is preserved by every cancel, successful or not: a
/// successful one releases the pool together with its record.
pub proof fn custody_preserved_by_cancel(v: EnvView, caller: Address, pool: Address)
    requires
        custody_inv(v),
    ensures
        custody_inv(cancel_step(v, caller, pool).0),
{
}

/// A pending transfer is always actionable: as long as the custody invariant
/// holds, the record's designated new admin can accept it, and its proposer
/// can cancel it.
pub proof fn pending_transfer_is_actionable(v: EnvView, pool: Address)
    requires
        custody_inv(v),
        v.records.dom().contains(pool),
    ensures
        accept_step(v, v.records[pool].data.new_admin, pool).1 is Ok,
        cancel_step(v, v.records[pool].data.cur_admin, pool).1 is Ok,
{
}

/// Atomicity: whenever an operation fails, it changes nothing — the error is
/// its only effect, so a caller may treat any error as "no state change
/// occurred" and retry safely.
pub proof fn failure_changes_nothing(
    v: EnvView,
    caller: Address,
    pool: Address,
    cur_admin: Address,
    new_admin: Address,
)
    ensures
        propose_step(v, caller, pool, cur_admin, new_admin).1 is Err ==> propose_step(
            v,
            caller,
            pool,
            cur_admin,
            new_admin,
        ).0 == v,
        accept_step(v, caller, pool).1 is Err ==> accept_step(v, caller, pool).0 == v,
        cancel_step(v, caller, pool).1 is Err ==> cancel_step(v, caller, pool).0 == v,
{
}

/// Retention ordering: the record a successful proposal persists is retained
/// materially longer than the instance's shared allowance — here by at least
/// the difference of the two windows — so a pending record cannot lapse
/// before routine state does.
pub proof fn pending_record_outlives_shared_allowance(
    v: EnvView,
    caller: Address,
    pool: Address,
    cur_admin: Address,
    new_admin: Address,
)
    requires
        v.wf(),
        propose_step(v, caller, pool, cur_admin, new_admin).1 is Ok,
    ensures
        ({
            let nv = propose_step(v, caller, pool, cur_admin, new_admin).0;
            &&& nv.records.dom().contains(pool)
            &&& nv.records[pool].live_until >= nv.instance_live_until + (LEDGER_BUMP_TRANSFER
                - LEDGER_BUMP_SHARED)
        }),
{
}

} // verus!
