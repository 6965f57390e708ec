//! A two-phase admin-transfer protocol for externally owned pools.
//!
//! A transfer of a pool's administrator role runs in two phases: the current
//! admin proposes a transfer, which parks the pool's admin role with the
//! protocol itself, and the designated new admin later accepts it (or the
//! proposer cancels it). While a transfer is pending the protocol holds
//! custodial control of the pool, so the pool is never left without a valid
//! administrator and no third party can seize it.
//!
//! The ledger substrate (keyed storage with time-to-live extension), the
//! pool's own admin capability, and caller authentication are modeled as
//! explicit state in [`env::Env`]; the protocol's operations live in
//! [`contract::AdminTransfer`], and the laws the state machine obeys are
//! proved in [`laws`].

pub mod contract;
pub mod env;
pub mod errors;
pub mod laws;
pub mod pool;
pub mod storage;

pub use contract::AdminTransfer;
pub use env::{Address, Env};
pub use errors::ContractError;
pub use storage::TransferData;
