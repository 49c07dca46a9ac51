//! Transaction-execution core of a layer-2 virtual machine: a multi-version
//! concurrency-control (MVCC) cell store, a typed versioned-state dispatcher,
//! and the account-transaction pipeline (nonce check, balance check, validate,
//! execute with isolated rollback, resource accounting, fee transfer).

use vstd::prelude::*;

pub mod account_transaction;
pub mod block_context;
pub mod objects;
pub mod state;
pub mod transactions;
pub mod types;
pub mod versioned_state;
pub mod versioned_storage;

verus! {

/// A logical version: a transaction's position within a concurrently
/// executed batch. Higher means logically later.
pub type Version = u64;

} // verus!
