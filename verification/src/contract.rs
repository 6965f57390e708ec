//! The transfer protocol: propose, query, accept, cancel.
//!
//! Per pool, the state machine is `NoTransfer -> Pending -> NoTransfer`:
//! a proposal by the pool's administrator parks the admin role with the
//! protocol and persists the record (entry to `Pending`); an accept by the
//! designated new admin, or a cancel by the proposer, hands the role on (or
//! back) and deletes the record (exit to `NoTransfer`). Every operation is
//! atomic: on any failure the returned error is the only effect.
//!
//! Each operation's full behavior — next state and result — is given by a
//! step function ([`propose_step`], [`accept_step`], [`cancel_step`]), and the
//! executable operation ensures it computes exactly that step.

use vstd::prelude::*;

use crate::env::{require_auth, Address, Env, EnvView};
use crate::errors::ContractError;
use crate::pool;
use crate::pool::set_admin_step;
use crate::storage;
use crate::storage::{instance_extended, spec_get_transfer, transfer_removed, transfer_set,
    TransferData};

verus! {

/// The admin-transfer protocol. All state lives in the environment; this type
/// carries the operations.
pub struct AdminTransfer;

/// Next state and result of proposing a transfer of `pool` from `cur_admin`
/// to `new_admin`, invoked by the authenticated `caller`.
///
/// A proposal fails on a pending transfer, then on a caller that is not
/// `cur_admin`, then on the pool rejecting the custody hand-off (which is what
/// rules out a `cur_admin` that is not the pool's administrator). On success
/// the pool's administrator becomes the protocol itself, the shared retention
/// is extended, and the record is persisted with the per-record window.
pub open spec fn propose_step(
    v: EnvView,
    caller: Address,
    pool: Address,
    cur_admin: Address,
    new_admin: Address,
) -> (EnvView, Result<(), ContractError>) {
    if v.records.dom().contains(pool) {
        (v, Err(ContractError::TransferAlreadyPending))
    } else if caller != cur_admin {
        (v, Err(ContractError::Unauthorized))
    } else {
        let (v1, r1) = set_admin_step(v, cur_admin, pool, v.contract_address);
        match r1 {
            Ok(_) => (
                transfer_set(
                    instance_extended(v1),
                    pool,
                    TransferData { cur_admin, new_admin },
                ),
                Ok(()),
            ),
            Err(er) => (v, Err(er)),
        }
    }
}

/// Next state and result of accepting the pending transfer of `pool`, invoked
/// by the authenticated `caller`.
///
/// An accept fails when no transfer is pending, then on a caller that is not
/// the record's designated new admin, then on the pool rejecting the
/// reassignment (the protocol no longer holds custody). On success the pool's
/// administrator becomes the record's new admin and the record is deleted.
pub open spec fn accept_step(v: EnvView, caller: Address, pool: Address) -> (
    EnvView,
    Result<(), ContractError>,
) {
    if !v.records.dom().contains(pool) {
        (v, Err(ContractError::NoTransferPending))
    } else {
        let data = v.records[pool].data;
        if caller != data.new_admin {
            (v, Err(ContractError::Unauthorized))
        } else {
            let (v1, r1) = set_admin_step(v, v.contract_address, pool, data.new_admin);
            match r1 {
                Ok(_) => (transfer_removed(instance_extended(v1), pool), Ok(())),
                Err(er) => (v, Err(er)),
            }
        }
    }
}

/// Next state and result of cancelling the pending transfer of `pool`,
/// invoked by the authenticated `caller`.
///
/// A cancel fails when no transfer is pending, then on a caller that is not
/// the proposer, then on the pool rejecting the reassignment. On success the
/// pool's administrator reverts to the proposer and the record is deleted.
pub open spec fn cancel_step(v: EnvView, caller: Address, pool: Address) -> (
    EnvView,
    Result<(), ContractError>,
) {
    if !v.records.dom().contains(pool) {
        (v, Err(ContractError::NoTransferPending))
    } else {
        let data = v.records[pool].data;
        if caller != data.cur_admin {
            (v, Err(ContractError::Unauthorized))
        } else {
            let (v1, r1) = set_admin_step(v, v.contract_address, pool, data.cur_admin);
            match r1 {
                Ok(_) => (transfer_removed(instance_extended(v1), pool), Ok(())),
                Err(er) => (v, Err(er)),
            }
        }
    }
}

impl AdminTransfer {
    /// Propose a transfer of `pool`'s administrator role from `cur_admin` to
    /// `new_admin`, and park the role with the protocol. Must be invoked by
    /// `cur_admin`, and `cur_admin` must be the pool's administrator.
    pub fn set_admin_transfer(
        e: &mut Env,
        caller: Address,
        pool: Address,
        cur_admin: Address,
        new_admin: Address,
    ) -> (r: Result<(), ContractError>)
        requires
            old(e)@.wf(),
        ensures
            (final(e)@, r) == propose_step(old(e)@, caller, pool, cur_admin, new_admin),
            final(e)@.wf(),
    {
        if storage::has_admin_transfer(e, pool) {
            return Err(ContractError::TransferAlreadyPending);
        }
        if let Err(er) = require_auth(caller, cur_admin) {
            return Err(er);
        }
        let contract_address = e.contract_address;
        if let Err(er) = pool::set_admin(e, cur_admin, pool, contract_address) {
            return Err(er);
        }
        storage::extend_instance(e);
        let admin_transfer = TransferData { cur_admin, new_admin };
        storage::set_admin_transfer(e, pool, &admin_transfer);
        Ok(())
    }

    /// The pending transfer record for `pool`, or absent. A pure read, open
    /// to anyone.
    pub fn get_admin_transfer(e: &Env, pool: Address) -> (r: Option<TransferData>)
        ensures
            r == spec_get_transfer(e@, pool),
    {
        storage::get_admin_transfer(e, pool)
    }

    /// Accept the pending transfer of `pool`: hand the administrator role to
    /// the record's new admin and delete the record. Must be invoked by the
    /// record's new admin.
    pub fn transfer_admin(e: &mut Env, caller: Address, pool: Address) -> (r: Result<
        (),
        ContractError,
    >)
        requires
            old(e)@.wf(),
        ensures
            (final(e)@, r) == accept_step(old(e)@, caller, pool),
            final(e)@.wf(),
    {
        let admin_transfer = match storage::get_admin_transfer(e, pool) {
            Some(t) => t,
            None => {
                return Err(ContractError::NoTransferPending);
            },
        };
        if let Err(er) = require_auth(caller, admin_transfer.new_admin) {
            return Err(er);
        }
        let contract_address = e.contract_address;
        if let Err(er) = pool::set_admin(e, contract_address, pool, admin_transfer.new_admin) {
            return Err(er);
        }
        storage::extend_instance(e);
        storage::del_admin_transfer(e, pool);
        Ok(())
    }

    /// Cancel the pending transfer of `pool`: hand the administrator role
    /// back to the proposer and delete the record. Must be invoked by the
    /// proposer.
    pub fn cancel_admin_transfer(e: &mut Env, caller: Address, pool: Address) -> (r: Result<
        (),
        ContractError,
    >)
        requires
            old(e)@.wf(),
        ensures
            (final(e)@, r) == cancel_step(old(e)@, caller, pool),
            final(e)@.wf(),
    {
        let admin_transfer = match storage::get_admin_transfer(e, pool) {
            Some(t) => t,
            None => {
                return Err(ContractError::NoTransferPending);
            },
        };
        if let Err(er) = require_auth(caller, admin_transfer.cur_admin) {
            return Err(er);
        }
        let contract_address = e.contract_address;
        if let Err(er) = pool::set_admin(e, contract_address, pool, admin_transfer.cur_admin) {
            return Err(er);
        }
        storage::extend_instance(e);
        storage::del_admin_transfer(e, pool);
        Ok(())
    }
}

} // verus!
