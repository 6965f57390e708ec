//! The modeled execution environment.
//!
//! The protocol runs against a ledger substrate that supplies keyed persistent
//! storage with time-to-live bookkeeping, caller authentication, and access to
//! the externally owned pools. [`Env`] models exactly the state the protocol's
//! operations read and write: the ledger sequence number, the shared instance
//! allowance, the persisted transfer records, the pools' administrator
//! assignments, and the protocol's own identity. [`EnvView`] is its abstract
//! value, over which every contract is stated.

use std::collections::HashMap;

use vstd::prelude::*;

use crate::errors::ContractError;
use crate::storage::{StoredTransfer, LEDGER_BUMP_SHARED, LEDGER_BUMP_TRANSFER};

verus! {

broadcast use vstd::std_specs::hash::group_hash_axioms;

/// An on-ledger identity: an account, a pool, or the protocol itself.
pub type Address = u64;

/// The abstract state of the environment.
#[verifier::ext_equal]
pub struct EnvView {
    /// The current ledger sequence number.
    pub seq: u32,
    /// The sequence number up to which the protocol instance's shared state
    /// is retained.
    pub instance_live_until: u32,
    /// The protocol's own identity, fixed at deployment.
    pub contract_address: Address,
    /// The persisted transfer records, keyed by pool, each with its own
    /// retention bound.
    pub records: Map<Address, StoredTransfer>,
    /// Each pool's current administrator.
    pub pools: Map<Address, Address>,
}

impl EnvView {
    /// Well-formedness: the sequence number leaves headroom for the largest
    /// retention bump, and every retention bound was produced by extending
    /// from a sequence number no later than the current one.
    pub open spec fn wf(self) -> bool {
        &&& self.seq + LEDGER_BUMP_TRANSFER <= u32::MAX
        &&& self.instance_live_until <= self.seq + LEDGER_BUMP_SHARED
        &&& forall|p: Address|
            self.records.dom().contains(p) ==> (#[trigger] self.records[p]).live_until
                <= self.seq + LEDGER_BUMP_TRANSFER
    }
}

/// The modeled substrate state. Constructed by [`Env::new`]; mutated only
/// through the storage, pool, and protocol operations, all of which preserve
/// [`EnvView::wf`].
pub struct Env {
    pub(crate) seq: u32,
    pub(crate) instance_live_until: u32,
    pub(crate) contract_address: Address,
    pub(crate) entries: HashMap<Address, StoredTransfer>,
    pub(crate) pools: HashMap<Address, Address>,
}

impl View for Env {
    type V = EnvView;

    open(crate) spec fn view(&self) -> EnvView {
        EnvView {
            seq: self.seq,
            instance_live_until: self.instance_live_until,
            contract_address: self.contract_address,
            records: self.entries@,
            pools: self.pools@,
        }
    }
}

impl Env {
    /// A fresh environment at sequence number `seq`, with the protocol
    /// deployed as `contract_address`, no pools, and no pending transfers.
    pub fn new(contract_address: Address, seq: u32) -> (e: Env)
        requires
            seq + LEDGER_BUMP_TRANSFER <= u32::MAX,
        ensures
            e@ == (EnvView {
                seq,
                instance_live_until: seq,
                contract_address,
                records: Map::<Address, StoredTransfer>::empty(),
                pools: Map::<Address, Address>::empty(),
            }),
            e@.wf(),
    {
        let e = Env {
            seq,
            instance_live_until: seq,
            contract_address,
            entries: HashMap::new(),
            pools: HashMap::new(),
        };
        e
    }

    /// Advance the ledger sequence number by `blocks`, leaving all stored
    /// state as it is. Models time passing between invocations.
    pub fn jump(&mut self, blocks: u32)
        requires
            old(self)@.wf(),
            old(self)@.seq + blocks + LEDGER_BUMP_TRANSFER <= u32::MAX,
        ensures
            final(self)@ == (EnvView { seq: (old(self)@.seq + blocks) as u32, ..old(self)@ }),
            final(self)@.wf(),
    {
        self.seq = self.seq + blocks;
    }

    /// The current ledger sequence number.
    pub fn sequence(&self) -> (r: u32)
        ensures
            r == self@.seq,
    {
        self.seq
    }

    /// The sequence number up to which the protocol instance's shared state
    /// is retained.
    pub fn instance_live_until(&self) -> (r: u32)
        ensures
            r == self@.instance_live_until,
    {
        self.instance_live_until
    }
}

/// What the substrate's caller-authentication primitive decides: proof of
/// control succeeds exactly when the authenticated caller is the required
/// identity.
pub open spec fn auth_result(caller: Address, id: Address) -> Result<(), ContractError> {
    if caller == id {
        Ok(())
    } else {
        Err(ContractError::Unauthorized)
    }
}

/// Require that the authenticated caller proved control of `id`. Models the
/// substrate's synchronous authentication check.
pub fn require_auth(caller: Address, id: Address) -> (r: Result<(), ContractError>)
    ensures
        r == auth_result(caller, id),
{
    if caller == id {
        Ok(())
    } else {
        Err(ContractError::Unauthorized)
    }
}

} // verus!
