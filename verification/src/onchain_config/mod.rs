//! Configuration that lives in system contracts, and the transactions that the
//! chain itself sends to them.

pub mod abi;
pub mod api;
pub mod base;
pub mod consensus_config;
pub mod dkg;
pub mod metadata_txn;
pub mod read_back;
pub mod types;
pub mod validator_set;
