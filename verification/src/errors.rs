//! Typed errors surfaced by the transfer protocol.

use vstd::prelude::*;

verus! {

/// Every failure of a protocol operation, as a typed value.
///
/// Each operation aborts atomically on failure: when an operation returns one
/// of these, no state change has been committed.
#[derive(Clone, Copy, Debug, PartialEq, Eq, Structural)]
pub enum ContractError {
    /// A transfer was proposed while one is already pending for the pool.
    TransferAlreadyPending,
    /// An accept or cancel was requested while no transfer is pending.
    NoTransferPending,
    /// The caller could not prove control of the identity the operation
    /// requires.
    Unauthorized,
    /// The pool itself refused the administrator reassignment (its current
    /// administrator is not the identity the call was made as).
    ResourceRejected,
}

} // verus!
