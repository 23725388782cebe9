//! Verified core of a block execution pipeline: the cache of persisted state,
//! the views that read through it, and the on-chain configuration layer.

pub mod block_view;
pub mod cache;
pub mod concurrent_map;
pub mod evm_state;
pub mod execution;
pub mod onchain_config;
pub mod parallel_tx;
pub mod primitives;
pub mod state;
pub mod trie_updates;
pub mod tx_env;
pub mod u256;
