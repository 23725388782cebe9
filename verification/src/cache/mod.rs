//! The cache of block state that is merged but not necessarily persisted yet.

use vstd::prelude::*;

pub mod entries;
pub mod eviction;
pub mod laws;
pub mod metrics;
pub mod model;
pub mod wait;
pub mod writes;

use crate::concurrent_map::{
    map_get, map_get_within, map_insert, map_insert_if_vacant, map_remove, new_account_map,
    new_code_map, new_slot_map, new_storage_map, new_storage_trie_map, new_trie_map, AccountMap,
    CodeMap, Contents, SlotMap, StorageMap, StorageTrieMap, TrieMap, ValueWithTip,
};
use crate::primitives::{Address, Bytecode, Nibbles, Node, B256, U256};
use crate::state::Account;
use metrics::CacheMetricsReporter;
use model::{CacheState, SlotState, TrieState};

verus! {

/// The parts of a [`PersistBlockCache`].
pub struct PersistBlockCacheInner {
    large_gap: bool,
    accounts: AccountMap,
    storage: StorageMap,
    contracts: CodeMap,
    account_trie: TrieMap,
    storage_trie: StorageTrieMap,
    merged_block_number: Option<u64>,
    persist_block_number: Option<u64>,
    metrics: CacheMetricsReporter,
}

/// Caches account state and the world trie.
pub struct PersistBlockCache(PersistBlockCacheInner);

/// The slots in a slot map.
spec fn slot_state(slots: SlotMap) -> SlotState {
    slots.contents()
}

/// The bytes in a cached value.
spec fn bytes_state(entry: ValueWithTip<Vec<u8>>) -> ValueWithTip<Seq<u8>> {
    model::tip(entry.value@, entry.block_number)
}

/// The nodes in a trie map.
spec fn trie_state(trie: TrieMap) -> TrieState {
    trie.contents().map_values(|e: ValueWithTip<Vec<u8>>| bytes_state(e))
}

impl View for PersistBlockCacheInner {
    type V = CacheState;

    closed spec fn view(&self) -> CacheState {
        CacheState {
            accounts: self.accounts.contents(),
            storage: self.storage.contents().map_values(|s: SlotMap| slot_state(s)),
            contracts: self.contracts.contents().map_values(|e: ValueWithTip<Vec<u8>>| bytes_state(e)),
            account_trie: trie_state(self.account_trie),
            storage_trie: self.storage_trie.contents().map_values(|t: TrieMap| trie_state(t)),
            merged_block_number: self.merged_block_number,
            persist_block_number: self.persist_block_number,
            large_gap: self.large_gap,
        }
    }
}

impl View for PersistBlockCache {
    type V = CacheState;

    closed spec fn view(&self) -> CacheState {
        self.0@
    }
}

impl Default for PersistBlockCache {
    /// A new cache without anything in it.
    fn default() -> (r: Self)
        ensures
            r@ == model::empty_state(),
            r.counters() == CacheMetricsReporter::zero(),
    {
        PersistBlockCache::new()
    }
}

impl PersistBlockCache {
    /// The counters of the cache.
    pub closed spec fn counters(&self) -> CacheMetricsReporter {
        self.0.metrics
    }

    /// A new cache without anything in it.
    pub fn new() -> (r: Self)
        ensures
            r@ == model::empty_state(),
            r.counters() == CacheMetricsReporter::zero(),
    {
        let inner = PersistBlockCacheInner {
            large_gap: false,
            accounts: new_account_map(),
            storage: new_storage_map(),
            contracts: new_code_map(),
            account_trie: new_trie_map(),
            storage_trie: new_storage_trie_map(),
            merged_block_number: None,
            persist_block_number: None,
            metrics: CacheMetricsReporter::new(),
        };
        assert(inner@ =~= model::empty_state());
        PersistBlockCache(inner)
    }

    /// The counters of the cache.
    pub fn metrics(&self) -> (r: CacheMetricsReporter)
        ensures
            r == self.counters(),
    {
        self.0.metrics
    }

    /// The latest block whose state was merged.
    pub fn merged_block_number(&self) -> (r: Option<u64>)
        ensures
            r == self@.merged_block_number,
    {
        self.0.merged_block_number
    }

    /// The latest block that was persisted.
    pub fn persist_block_number(&self) -> (r: Option<u64>)
        ensures
            r == self@.persist_block_number,
    {
        self.0.persist_block_number
    }

    /// Forgets the persisted tip.
    pub fn reset(&mut self)
        ensures
            final(self)@ == (CacheState { persist_block_number: None, ..old(self)@ }),
            final(self).counters() == old(self).counters(),
    {
        self.0.persist_block_number = None;
    }

    /// Looks an account up.
    pub fn basic_account(&mut self, address: &Address) -> (r: Option<Option<Account>>)
        ensures
            r == old(self)@.account(*address),
            final(self)@ == old(self)@,
            final(self).counters() == old(self).counters().block_lookup(r is Some),
    {
        match map_get(&self.0.accounts, address) {
            Some(entry) => {
                self.0.metrics.block_cache_hit_record.hit();
                Some(entry.value)
            },
            None => {
                self.0.metrics.block_cache_hit_record.not_hit();
                None
            },
        }
    }

    /// Caches an account that was read from the database, unless the cache knows better.
    pub fn cache_account(&mut self, address: Address, account: Account)
        ensures
            final(self)@ == model::filled_account(
                old(self)@,
                address,
                account,
                old(self).counters().persist_block_number,
            ),
            final(self).counters() == old(self).counters(),
    {
        let block_number = self.0.metrics.persist_block_number;
        map_insert_if_vacant(
            &mut self.0.accounts,
            address,
            ValueWithTip::new(Some(account), block_number),
        );
    }

    /// Looks contract code up.
    pub fn bytecode_by_hash(&mut self, code_hash: &B256) -> (r: Option<Bytecode>)
        ensures
            r is Some <==> old(self)@.code(*code_hash) is Some,
            r matches Some(code) ==> old(self)@.code(*code_hash) == Some(code@),
            final(self)@ == old(self)@,
            final(self).counters() == old(self).counters().block_lookup(r is Some),
    {
        match map_get(&self.0.contracts, code_hash) {
            Some(entry) => {
                self.0.metrics.block_cache_hit_record.hit();
                assert(entry.value@ =~= old(self).0.contracts.contents()[*code_hash].value@);
                Some(entry.value)
            },
            None => {
                self.0.metrics.block_cache_hit_record.not_hit();
                None
            },
        }
    }

    /// Caches code that was read from the database, unless the cache has it.
    pub fn cache_byte_code(&mut self, code_hash: B256, byte_code: Bytecode)
        ensures
            final(self)@ == model::filled_code(
                old(self)@,
                code_hash,
                byte_code@,
                old(self).counters().persist_block_number,
            ),
            final(self).counters() == old(self).counters(),
    {
        let block_number = self.0.metrics.persist_block_number;
        map_insert_if_vacant(
            &mut self.0.contracts,
            code_hash,
            ValueWithTip::new(byte_code, block_number),
        );
        assert(self@.contracts =~= model::fill(old(self)@.contracts, code_hash, model::tip(byte_code@, block_number)));
    }

    /// Looks a storage slot up.
    pub fn storage(&mut self, address: &Address, slot: &U256) -> (r: Option<Option<U256>>)
        ensures
            r == old(self)@.slot(*address, *slot),
            final(self)@ == old(self)@,
            final(self).counters() == old(self).counters().block_lookup(r is Some),
    {
        if let Some(account) = map_get(&self.0.accounts, address) {
            if account.value.is_none() {
                self.0.metrics.block_cache_hit_record.hit();
                return Some(None);
            }
        }
        match map_get_within(&self.0.storage, address, slot) {
            Some(Some(entry)) => {
                self.0.metrics.block_cache_hit_record.hit();
                Some(entry.value)
            },
            _ => {
                self.0.metrics.block_cache_hit_record.not_hit();
                None
            },
        }
    }

    /// Caches a storage slot that was read from the database, unless the cache knows better.
    pub fn cache_storage(&mut self, address: Address, slot: U256, value: U256)
        ensures
            final(self)@ == model::filled_slot(
                old(self)@,
                address,
                slot,
                value,
                old(self).counters().persist_block_number,
            ),
            final(self).counters() == old(self).counters(),
    {
        let block_number = self.0.metrics.persist_block_number;
        let mut slots = match map_remove(&mut self.0.storage, &address) {
            Some(slots) => slots,
            None => new_slot_map(),
        };
        let ghost before = slot_state(slots);
        assert(!old(self)@.storage.dom().contains(address) ==> before =~= Map::empty());
        map_insert_if_vacant(&mut slots, slot, ValueWithTip::new(Some(value), block_number));
        map_insert(&mut self.0.storage, address, slots);
        assert(self@.storage =~= old(self)@.storage.insert(
            address,
            model::fill(before, slot, model::tip(Some(value), block_number)),
        ));
    }

    /// Looks an account trie node up.
    pub fn trie_account(&mut self, nibbles: &Nibbles) -> (r: Option<Node>)
        ensures
            r is Some <==> old(self)@.account_node(*nibbles) is Some,
            r matches Some(node) ==> old(self)@.account_node(*nibbles) == Some(node@),
            final(self)@ == old(self)@,
            final(self).counters() == old(self).counters().trie_lookup(r is Some),
    {
        match map_get(&self.0.account_trie, nibbles) {
            Some(entry) => {
                self.0.metrics.trie_cache_hit_record.hit();
                assert(entry.value@ =~= old(self).0.account_trie.contents()[*nibbles].value@);
                Some(entry.value)
            },
            None => {
                self.0.metrics.trie_cache_hit_record.not_hit();
                None
            },
        }
    }

    /// Looks a storage trie node up.
    pub fn trie_storage(&mut self, hash_address: &B256, nibbles: &Nibbles) -> (r: Option<Node>)
        ensures
            r is Some <==> old(self)@.storage_node(*hash_address, *nibbles) is Some,
            r matches Some(node) ==> old(self)@.storage_node(*hash_address, *nibbles) == Some(node@),
            final(self)@ == old(self)@,
            final(self).counters() == old(self).counters().trie_lookup(r is Some),
    {
        match map_get_within(&self.0.storage_trie, hash_address, nibbles) {
            Some(Some(entry)) => {
                self.0.metrics.trie_cache_hit_record.hit();
                assert(entry.value@ =~= old(
                    self,
                ).0.storage_trie.contents()[*hash_address].contents()[*nibbles].value@);
                Some(entry.value)
            },
            _ => {
                self.0.metrics.trie_cache_hit_record.not_hit();
                None
            },
        }
    }

    /// Moves the persisted tip to `block_number`. Returns whether those who wait for
    /// persistence to catch up have to be woken.
    pub fn persist_tip(&mut self, block_number: u64, cache_max_persist_gap: u64) -> (notify: bool)
        requires
            model::persists_next(old(self)@, block_number),
        ensures
            final(self)@ == model::persisted(old(self)@, block_number, cache_max_persist_gap),
            final(self).counters() == (CacheMetricsReporter {
                persist_block_number: block_number,
                ..old(self).counters()
            }),
            notify == (old(self)@.merged_block_number is Some),
    {
        self.0.metrics.persist_block_number = block_number;
        self.0.persist_block_number = Some(block_number);
        match self.0.merged_block_number {
            Some(merged_block_number) => {
                self.0.large_gap = merged_block_number - block_number >= cache_max_persist_gap;
                true
            },
            None => false,
        }
    }
}

} // verus!
