//! Deterministic block-replay core: a cached provider of historical chain
//! facts, a transaction-environment builder, balance-adjustment primitives,
//! hard-fork resolution, and a sequential transaction-execution strategy.

use vstd::prelude::*;

pub mod anchor;
pub mod block_builder;
pub mod chain_spec;
pub mod codec;
pub mod error;
pub mod exec_db;
pub mod provider;
pub mod read_call;
pub mod strategy;
pub mod transactions;
pub mod tx_env;
pub mod types;
pub mod u256;

verus! {

/// Consume a value whose cleanup a guest environment may skip; on the
/// host it is simply dropped.
pub fn guest_mem_forget<T>(_t: T) {
}

} // verus!
