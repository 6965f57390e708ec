//! The transfer ledger: persisted transfer records and retention bookkeeping.
//!
//! Each pool has at most one persisted [`TransferData`] record, held together
//! with a retention bound (the sequence number up to which the substrate keeps
//! it). Retention follows the substrate's extend-to-live-until rule: an
//! extension with a threshold and an amount raises the bound to `seq + amount`
//! only when it has fallen below `seq + threshold`. The per-record window is
//! far longer than the shared instance window, so a pending record always
//! materially outlives the routine instance allowance (see
//! [`crate::laws::pending_record_outlives_shared_allowance`]).

use vstd::prelude::*;

use crate::env::{Address, Env, EnvView};

verus! {

broadcast use vstd::std_specs::hash::group_hash_axioms;

/// Ledger sequence numbers in one day, assuming five seconds per ledger.
pub const ONE_DAY_LEDGERS: u32 = 17280;

/// Retention amount for the protocol instance's shared state.
pub const LEDGER_BUMP_SHARED: u32 = 31 * ONE_DAY_LEDGERS;

/// Threshold under which the shared retention is topped up.
pub const LEDGER_THRESHOLD_SHARED: u32 = LEDGER_BUMP_SHARED - ONE_DAY_LEDGERS;

/// Retention amount for a persisted transfer record.
pub const LEDGER_BUMP_TRANSFER: u32 = 120 * ONE_DAY_LEDGERS;

/// Threshold under which a record's retention is topped up.
pub const LEDGER_THRESHOLD_TRANSFER: u32 = LEDGER_BUMP_TRANSFER - 20 * ONE_DAY_LEDGERS;

/// A pending transfer: who proposed it and who is designated to receive the
/// pool's administrator role.
#[derive(Clone, Copy, Debug, PartialEq, Eq, Structural)]
pub struct TransferData {
    /// The authority that proposed the transfer: the pool's administrator at
    /// proposal time.
    pub cur_admin: Address,
    /// The identity designated to receive the administrator role.
    pub new_admin: Address,
}

/// A transfer record as the ledger holds it: the record itself and the
/// sequence number up to which it is retained.
#[derive(Clone, Copy, Debug, PartialEq, Eq, Structural)]
pub struct StoredTransfer {
    pub data: TransferData,
    pub live_until: u32,
}

/// The substrate's retention rule: extend `live_until` to `seq + amount` when
/// it has fallen below `seq + threshold`, otherwise leave it as it is.
pub open spec fn extended_ttl(live_until: u32, seq: u32, threshold: u32, amount: u32) -> u32 {
    if live_until < seq + threshold {
        (seq + amount) as u32
    } else {
        live_until
    }
}

/// The state after extending the instance's shared retention.
pub open spec fn instance_extended(v: EnvView) -> EnvView {
    EnvView {
        instance_live_until: extended_ttl(
            v.instance_live_until,
            v.seq,
            LEDGER_THRESHOLD_SHARED,
            LEDGER_BUMP_SHARED,
        ),
        ..v
    }
}

/// The stored form a record for `pool` takes right after [`set_admin_transfer`]:
/// the new data, with retention extended from the record's previous bound (or
/// from the bare current sequence number for a fresh record).
pub open spec fn stored_after_set(v: EnvView, pool: Address, data: TransferData) -> StoredTransfer {
    let prev = if v.records.dom().contains(pool) {
        v.records[pool].live_until
    } else {
        v.seq
    };
    StoredTransfer {
        data,
        live_until: extended_ttl(prev, v.seq, LEDGER_THRESHOLD_TRANSFER, LEDGER_BUMP_TRANSFER),
    }
}

/// The state after persisting `data` as the record for `pool`.
pub open spec fn transfer_set(v: EnvView, pool: Address, data: TransferData) -> EnvView {
    EnvView { records: v.records.insert(pool, stored_after_set(v, pool, data)), ..v }
}

/// The state after deleting the record for `pool`.
pub open spec fn transfer_removed(v: EnvView, pool: Address) -> EnvView {
    EnvView { records: v.records.remove(pool), ..v }
}

/// The record for `pool`, or absent.
pub open spec fn spec_get_transfer(v: EnvView, pool: Address) -> Option<TransferData> {
    if v.records.dom().contains(pool) {
        Some(v.records[pool].data)
    } else {
        None
    }
}

/// Extend the retention of the protocol instance's shared state by the
/// defined window.
pub fn extend_instance(e: &mut Env)
    requires
        old(e)@.wf(),
    ensures
        final(e)@ == instance_extended(old(e)@),
        final(e)@.wf(),
{
    if e.instance_live_until < e.seq + LEDGER_THRESHOLD_SHARED {
        e.instance_live_until = e.seq + LEDGER_BUMP_SHARED;
    }
}

/// Whether a transfer record exists for `pool`.
pub fn has_admin_transfer(e: &Env, pool: Address) -> (r: bool)
    ensures
        r == e@.records.dom().contains(pool),
{
    e.entries.contains_key(&pool)
}

/// Persist `admin_transfer` as the record for `pool` and extend the record's
/// retention by the per-record window.
pub fn set_admin_transfer(e: &mut Env, pool: Address, admin_transfer: &TransferData)
    requires
        old(e)@.wf(),
    ensures
        final(e)@ == transfer_set(old(e)@, pool, *admin_transfer),
        final(e)@.wf(),
{
    let prev: u32 = match e.entries.get(&pool) {
        Some(s) => s.live_until,
        None => e.seq,
    };
    let live_until: u32 = if prev < e.seq + LEDGER_THRESHOLD_TRANSFER {
        e.seq + LEDGER_BUMP_TRANSFER
    } else {
        prev
    };
    e.entries.insert(pool, StoredTransfer { data: *admin_transfer, live_until });
}

/// The record for `pool`, or `None` when no transfer is pending.
pub fn get_admin_transfer(e: &Env, pool: Address) -> (r: Option<TransferData>)
    ensures
        r == spec_get_transfer(e@, pool),
{
    match e.entries.get(&pool) {
        Some(s) => Some(s.data),
        None => None,
    }
}

/// The retention bound of the record for `pool`, or `None` when no transfer
/// is pending.
pub fn record_live_until(e: &Env, pool: Address) -> (r: Option<u32>)
    ensures
        r == (if e@.records.dom().contains(pool) {
            Some(e@.records[pool].live_until)
        } else {
            None::<u32>
        }),
{
    match e.entries.get(&pool) {
        Some(s) => Some(s.live_until),
        None => None,
    }
}

/// Delete the record for `pool`.
pub fn del_admin_transfer(e: &mut Env, pool: Address)
    requires
        old(e)@.wf(),
    ensures
        final(e)@ == transfer_removed(old(e)@, pool),
        final(e)@.wf(),
{
    e.entries.remove(&pool);
    proof {
        assert(e@ =~= transfer_removed(old(e)@, pool));
    }
}

} // verus!
