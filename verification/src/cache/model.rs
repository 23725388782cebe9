//! The mathematical state of the cache and what each operation does to it.

use vstd::prelude::*;

use crate::concurrent_map::ValueWithTip;
use crate::primitives::{Address, Nibbles, Node, B256, KECCAK_EMPTY, U256, U256_ZERO};
use crate::state::{Account, BundleAccount, OriginalValuesKnown, StorageSlot};
use crate::trie_updates::{StorageTrieUpdatesV2, TrieUpdatesV2};

verus! {

/// Cached slots of one account.
pub type SlotState = Map<U256, ValueWithTip<Option<U256>>>;

/// Cached nodes of one trie.
pub type TrieState = Map<Nibbles, ValueWithTip<Seq<u8>>>;

/// What the cache holds.
#[verifier::ext_equal]
pub struct CacheState {
    /// Accounts; a value of `None` records that the account does not exist.
    pub accounts: Map<Address, ValueWithTip<Option<Account>>>,
    /// Storage slots by account; a value of `None` records that the slot is empty.
    pub storage: Map<Address, SlotState>,
    /// Contract code by hash.
    pub contracts: Map<B256, ValueWithTip<Seq<u8>>>,
    /// Nodes of the account trie.
    pub account_trie: TrieState,
    /// Nodes of storage tries by hashed address.
    pub storage_trie: Map<B256, TrieState>,
    /// Latest block whose state was merged.
    pub merged_block_number: Option<u64>,
    /// Latest block that was persisted.
    pub persist_block_number: Option<u64>,
    /// Whether persistence is too far behind execution.
    pub large_gap: bool,
}

/// The value of `map` at `key`, if there is one.
pub open spec fn lookup<K, V>(map: Map<K, V>, key: K) -> Option<V> {
    if map.dom().contains(key) {
        Some(map[key])
    } else {
        None
    }
}

/// `map` with `value` at `key`, or without `key` where there is no value.
pub open spec fn assign<K, V>(map: Map<K, V>, key: K, value: Option<V>) -> Map<K, V> {
    match value {
        Some(v) => map.insert(key, v),
        None => map.remove(key),
    }
}

/// A value that belongs to `block_number`.
pub open spec fn tip<V>(value: V, block_number: u64) -> ValueWithTip<V> {
    ValueWithTip { value, block_number }
}

/// A cache without anything in it.
pub open spec fn empty_state() -> CacheState {
    CacheState {
        accounts: Map::empty(),
        storage: Map::empty(),
        contracts: Map::empty(),
        account_trie: Map::empty(),
        storage_trie: Map::empty(),
        merged_block_number: None,
        persist_block_number: None,
        large_gap: false,
    }
}

impl CacheState {
    /// What a lookup of an account answers.
    pub open spec fn account(self, address: Address) -> Option<Option<Account>> {
        match lookup(self.accounts, address) {
            Some(entry) => Some(entry.value),
            None => None,
        }
    }

    /// What a lookup of a storage slot answers: the slots of an account that is known
    /// not to exist are known to be empty.
    pub open spec fn slot(self, address: Address, slot: U256) -> Option<Option<U256>> {
        if self.account(address) == Some(None::<Account>) {
            Some(None)
        } else {
            match lookup(self.storage, address) {
                Some(slots) => match lookup(slots, slot) {
                    Some(entry) => Some(entry.value),
                    None => None,
                },
                None => None,
            }
        }
    }

    /// What a lookup of contract code answers.
    pub open spec fn code(self, code_hash: B256) -> Option<Seq<u8>> {
        match lookup(self.contracts, code_hash) {
            Some(entry) => Some(entry.value),
            None => None,
        }
    }

    /// What a lookup of an account trie node answers.
    pub open spec fn account_node(self, path: Nibbles) -> Option<Seq<u8>> {
        match lookup(self.account_trie, path) {
            Some(entry) => Some(entry.value),
            None => None,
        }
    }

    /// What a lookup of a storage trie node answers.
    pub open spec fn storage_node(self, hashed_address: B256, path: Nibbles) -> Option<Seq<u8>> {
        match lookup(self.storage_trie, hashed_address) {
            Some(trie) => match lookup(trie, path) {
                Some(entry) => Some(entry.value),
                None => None,
            },
            None => None,
        }
    }
}

/// `map` with `value` at `key`, unless `key` has a value already.
pub open spec fn fill<K, V>(map: Map<K, V>, key: K, value: V) -> Map<K, V> {
    if map.dom().contains(key) {
        map
    } else {
        map.insert(key, value)
    }
}

/// The cache after an account was read from the database at `block_number`.
pub open spec fn filled_account(s: CacheState, address: Address, account: Account, block_number: u64) -> CacheState {
    CacheState { accounts: fill(s.accounts, address, tip(Some(account), block_number)), ..s }
}

/// The cache after code was read from the database at `block_number`.
pub open spec fn filled_code(s: CacheState, code_hash: B256, code: Seq<u8>, block_number: u64) -> CacheState {
    CacheState { contracts: fill(s.contracts, code_hash, tip(code, block_number)), ..s }
}

/// The cache after a storage slot was read from the database at `block_number`.
pub open spec fn filled_slot(s: CacheState, address: Address, slot: U256, value: U256, block_number: u64) -> CacheState {
    let slots = match lookup(s.storage, address) {
        Some(slots) => slots,
        None => Map::empty(),
    };
    CacheState {
        storage: s.storage.insert(address, fill(slots, slot, tip(Some(value), block_number))),
        ..s
    }
}

/// Whether a touched slot is written to the cache.
pub open spec fn slot_is_written(known: OriginalValuesKnown, destroyed: bool, slot: StorageSlot) -> bool {
    ||| known is No
    ||| destroyed && slot.present_value != U256_ZERO
    ||| !destroyed && slot.previous_or_original_value != slot.present_value
}

/// The slots of an account, if it has any, after one slot was written. An empty value is
/// recorded only where the account has cached slots.
pub open spec fn write_slot(slots: Option<SlotState>, slot: U256, value: U256, block_number: u64) -> Option<SlotState> {
    if value == U256_ZERO {
        match slots {
            Some(s) => Some(s.insert(slot, tip(None, block_number))),
            None => None,
        }
    } else {
        match slots {
            Some(s) => Some(s.insert(slot, tip(Some(value), block_number))),
            None => Some(Map::empty().insert(slot, tip(Some(value), block_number))),
        }
    }
}

/// The slots of an account after one touched slot was considered.
pub open spec fn apply_slot(
    slots: Option<SlotState>,
    change: (U256, StorageSlot),
    known: OriginalValuesKnown,
    destroyed: bool,
    block_number: u64,
) -> Option<SlotState> {
    if slot_is_written(known, destroyed, change.1) {
        write_slot(slots, change.0, change.1.present_value, block_number)
    } else {
        slots
    }
}

/// The slots of an account after all touched slots were considered, in order.
pub open spec fn apply_slots(
    slots: Option<SlotState>,
    changes: Seq<(U256, StorageSlot)>,
    known: OriginalValuesKnown,
    destroyed: bool,
    block_number: u64,
) -> Option<SlotState>
    decreases changes.len(),
{
    if changes.len() == 0 {
        slots
    } else {
        apply_slot(
            apply_slots(slots, changes.drop_last(), known, destroyed, block_number),
            changes.last(),
            known,
            destroyed,
            block_number,
        )
    }
}

/// The slots of an account after its changes: a destroyed account starts without any.
pub open spec fn slots_after(
    s: CacheState,
    address: Address,
    account: BundleAccount,
    known: OriginalValuesKnown,
    block_number: u64,
) -> Option<SlotState> {
    let destroyed = account.status.destroyed();
    let before = if destroyed {
        None
    } else {
        lookup(s.storage, address)
    };
    apply_slots(before, account.storage@, known, destroyed, block_number)
}

/// The cache after the changes to one account.
pub open spec fn apply_account(
    s: CacheState,
    change: (Address, BundleAccount),
    known: OriginalValuesKnown,
    block_number: u64,
) -> CacheState {
    let (address, account) = change;
    CacheState {
        accounts: if known is No || account.info_changed() {
            s.accounts.insert(address, tip(account.account(), block_number))
        } else {
            s.accounts
        },
        storage: assign(s.storage, address, slots_after(s, address, account, known, block_number)),
        ..s
    }
}

/// The cache after the changes to all accounts, in order.
pub open spec fn apply_accounts(
    s: CacheState,
    changes: Seq<(Address, BundleAccount)>,
    known: OriginalValuesKnown,
    block_number: u64,
) -> CacheState
    decreases changes.len(),
{
    if changes.len() == 0 {
        s
    } else {
        apply_account(
            apply_accounts(s, changes.drop_last(), known, block_number),
            changes.last(),
            known,
            block_number,
        )
    }
}

/// The cached code after one contract was written. The code of an account without code is
/// not kept.
pub open spec fn apply_contract(
    contracts: Map<B256, ValueWithTip<Seq<u8>>>,
    change: (B256, Vec<u8>),
    block_number: u64,
) -> Map<B256, ValueWithTip<Seq<u8>>> {
    if change.0 == KECCAK_EMPTY {
        contracts
    } else {
        contracts.insert(change.0, tip(change.1@, block_number))
    }
}

/// The cached code after all contracts were written, in order.
pub open spec fn apply_contracts(
    contracts: Map<B256, ValueWithTip<Seq<u8>>>,
    changes: Seq<(B256, Vec<u8>)>,
    block_number: u64,
) -> Map<B256, ValueWithTip<Seq<u8>>>
    decreases changes.len(),
{
    if changes.len() == 0 {
        contracts
    } else {
        apply_contract(
            apply_contracts(contracts, changes.drop_last(), block_number),
            changes.last(),
            block_number,
        )
    }
}

/// Whether `block_number` may be merged next: the first block may be any, each further one
/// is the successor of the one before.
pub open spec fn merges_next(s: CacheState, block_number: u64) -> bool {
    match s.merged_block_number {
        Some(merged) => block_number == merged + 1,
        None => true,
    }
}

/// The cache after a block was merged.
pub open spec fn merged_block(
    s: CacheState,
    block_number: u64,
    known: OriginalValuesKnown,
    state: Seq<(Address, BundleAccount)>,
    contracts: Seq<(B256, Vec<u8>)>,
) -> CacheState {
    apply_accounts(
        CacheState {
            merged_block_number: Some(block_number),
            contracts: apply_contracts(s.contracts, contracts, block_number),
            ..s
        },
        state,
        known,
        block_number,
    )
}

/// A trie without the nodes at `paths`.
pub open spec fn remove_nodes(trie: TrieState, paths: Seq<Nibbles>) -> TrieState {
    trie.remove_keys(paths.to_set())
}

/// A trie after nodes were written, in order.
pub open spec fn write_nodes(trie: TrieState, nodes: Seq<(Nibbles, Node)>, block_number: u64) -> TrieState
    decreases nodes.len(),
{
    if nodes.len() == 0 {
        trie
    } else {
        write_nodes(trie, nodes.drop_last(), block_number).insert(
            nodes.last().0,
            tip(nodes.last().1@, block_number),
        )
    }
}

/// The storage trie of one account, if it has one, after its changes.
pub open spec fn apply_storage_trie(
    trie: Option<TrieState>,
    update: StorageTrieUpdatesV2,
    block_number: u64,
) -> Option<TrieState> {
    if update.is_deleted {
        None
    } else {
        let kept = match trie {
            Some(t) => remove_nodes(t, update.removed_nodes@),
            None => Map::empty(),
        };
        Some(write_nodes(kept, update.storage_nodes@, block_number))
    }
}

/// The storage tries after the changes to all of them, in order.
pub open spec fn apply_storage_tries(
    tries: Map<B256, TrieState>,
    updates: Seq<(B256, StorageTrieUpdatesV2)>,
    block_number: u64,
) -> Map<B256, TrieState>
    decreases updates.len(),
{
    if updates.len() == 0 {
        tries
    } else {
        let before = apply_storage_tries(tries, updates.drop_last(), block_number);
        let (hashed_address, update) = updates.last();
        assign(
            before,
            hashed_address,
            apply_storage_trie(lookup(before, hashed_address), update, block_number),
        )
    }
}

/// The cache after the trie changes of a block.
pub open spec fn merged_tries(s: CacheState, updates: TrieUpdatesV2, block_number: u64) -> CacheState {
    CacheState {
        account_trie: write_nodes(
            remove_nodes(s.account_trie, updates.removed_nodes@),
            updates.account_nodes@,
            block_number,
        ),
        storage_trie: apply_storage_tries(s.storage_trie, updates.storage_tries@, block_number),
        ..s
    }
}

/// Whether `block_number` may become the persisted tip: it is after the current tip and not
/// after the latest merged block.
pub open spec fn persists_next(s: CacheState, block_number: u64) -> bool {
    &&& s.persist_block_number matches Some(persisted) ==> block_number > persisted
    &&& s.merged_block_number matches Some(merged) ==> block_number <= merged
}

/// The cache after the persisted tip moved to `block_number`.
pub open spec fn persisted(s: CacheState, block_number: u64, max_gap: u64) -> CacheState {
    CacheState {
        persist_block_number: Some(block_number),
        large_gap: match s.merged_block_number {
            Some(merged) => merged - block_number >= max_gap,
            None => s.large_gap,
        },
        ..s
    }
}

} // verus!
