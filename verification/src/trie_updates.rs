//! Trie changes of one block.

use vstd::prelude::*;

use crate::primitives::{Nibbles, Node, B256};

verus! {

/// The changes to the storage trie of one account.
#[derive(Debug)]
pub struct StorageTrieUpdatesV2 {
    /// Whether the whole trie was deleted.
    pub is_deleted: bool,
    /// Paths of the nodes that were removed.
    pub removed_nodes: Vec<Nibbles>,
    /// Nodes that were written, by path.
    pub storage_nodes: Vec<(Nibbles, Node)>,
}

/// The changes to the account trie and to the storage tries.
#[derive(Debug)]
pub struct TrieUpdatesV2 {
    /// Paths of the account trie nodes that were removed.
    pub removed_nodes: Vec<Nibbles>,
    /// Account trie nodes that were written, by path.
    pub account_nodes: Vec<(Nibbles, Node)>,
    /// Changes to storage tries, by hashed account address.
    pub storage_tries: Vec<(B256, StorageTrieUpdatesV2)>,
}

} // verus!
