//! Views of the state that execution reads through: the cache first, and the
//! database where the cache does not know.
//!
//! A view is handed the shared cache while it holds it, and a closure that reads the
//! database.

use std::collections::BTreeMap;
use vstd::prelude::*;

use crate::cache::entries;
use crate::cache::eviction;
use crate::cache::laws;
use crate::cache::model;
use crate::cache::model::CacheState;
use crate::cache::PersistBlockCache;
use crate::onchain_config::abi;
use crate::primitives;
use crate::primitives::{
    b256_eq, copy_bytes, Address, Bytecode, B256, KECCAK_EMPTY, U256, U256_ZERO,
};
use crate::state::{Account, AccountInfo, BundleAccount, OriginalValuesKnown};
use crate::u256::u256_to_be_bytes;

verus! {

/// How many blocks back a block hash can be asked for.
pub const BLOCK_HASH_HISTORY: u64 = 256;

/// Hands out views of the state, and knows the identifiers of recent blocks. `Cache` is how
/// the views share the cache.
pub struct BlockViewStorage<Client, Cache> {
    client: Client,
    cache: Cache,
    block_number_to_id: BTreeMap<u64, B256>,
}

/// The entries of `ids` that do not lie before `oldest`.
pub open spec fn ids_from(ids: Map<u64, B256>, oldest: u64) -> Map<u64, B256> {
    ids.restrict(Set::new(|number: u64| number >= oldest))
}

/// What is left of `ids` when `block_number` becomes canonical: those that the block can ask
/// for, and its own.
pub open spec fn ids_after_canonical(ids: Map<u64, B256>, block_number: u64) -> Map<u64, B256> {
    if block_number <= BLOCK_HASH_HISTORY {
        ids
    } else {
        ids_from(ids, (block_number - BLOCK_HASH_HISTORY) as u64)
    }
}

/// Whether `key` is the smallest key of `map`, `None` if there is none.
pub open spec fn is_first_key(map: Map<u64, B256>, key: Option<u64>) -> bool {
    match key {
        Some(first) => map.dom().contains(first) && forall|k: u64| #[trigger]
            map.dom().contains(k) ==> first <= k,
        None => map.dom() == Set::<u64>::empty(),
    }
}

/// `BTreeMap::first_key_value`: the smallest key, if there is any.
#[verifier::external_body]
fn first_key(map: &BTreeMap<u64, B256>) -> (r: Option<u64>)
    ensures
        is_first_key(map@, r),
{
    map.first_key_value().map(|entry| *entry.0)
}

/// `BTreeMap::pop_first`: removes the entry with the smallest key, if there is any, and hands
/// it out.
#[verifier::external_body]
fn pop_first(map: &mut BTreeMap<u64, B256>) -> (r: Option<(u64, B256)>)
    ensures
        match r {
            Some((key, value)) => {
                &&& is_first_key(old(map)@, Some(key))
                &&& value == old(map)@[key]
                &&& final(map)@ == old(map)@.remove(key)
            },
            None => is_first_key(old(map)@, None) && final(map)@ == old(map)@,
        },
{
    map.pop_first()
}

impl<Client, Cache> BlockViewStorage<Client, Cache> {
    /// The identifiers of blocks, by block number.
    pub closed spec fn ids(&self) -> Map<u64, B256> {
        self.block_number_to_id@
    }

    /// What the storage reads from.
    pub closed spec fn source(&self) -> Client {
        self.client
    }

    /// How its views share the cache.
    pub closed spec fn shared_cache(&self) -> Cache {
        self.cache
    }

    /// A storage that reads from `client` and shares `cache`.
    pub fn new(client: Client, cache: Cache) -> (r: Self)
        ensures
            r.source() == client,
            r.shared_cache() == cache,
            r.ids() == Map::<u64, B256>::empty(),
    {
        BlockViewStorage { client, cache, block_number_to_id: BTreeMap::new() }
    }

    /// What the storage reads from.
    pub fn client(&self) -> (r: &Client)
        ensures
            *r == self.source(),
    {
        &self.client
    }

    /// A view of the state over the database transaction `tx`, which shares the cache.
    pub fn get_state_view<Tx>(&self, tx: Tx) -> (r: RawBlockViewProvider<Tx, Cache>) where
        Cache: Clone,

        ensures
            r.tx == tx,
            r.cache matches Some(cache) && cloned(self.shared_cache(), cache),
    {
        RawBlockViewProvider::new(tx, Some(self.cache.clone()))
    }

    /// Remembers the identifier of a block.
    pub fn insert_block_id(&mut self, block_number: u64, block_id: B256)
        ensures
            final(self).ids() == old(self).ids().insert(block_number, block_id),
            final(self).source() == old(self).source(),
            final(self).shared_cache() == old(self).shared_cache(),
    {
        broadcast use vstd::std_specs::btree::group_btree_axioms;

        self.block_number_to_id.insert(block_number, block_id);
    }

    /// The identifier of a block, if it is remembered.
    pub fn get_block_id(&self, block_number: u64) -> (r: Option<B256>)
        ensures
            r == if self.ids().dom().contains(block_number) {
                Some(self.ids()[block_number])
            } else {
                None
            },
    {
        broadcast use vstd::std_specs::btree::group_btree_axioms;

        match self.block_number_to_id.get(&block_number) {
            Some(id) => Some(*id),
            None => None,
        }
    }

    /// Forgets the identifiers that cannot be asked for any more once `block_number` is
    /// canonical.
    pub fn update_canonical(&mut self, block_number: u64, _block_hash: B256)
        ensures
            final(self).ids() == ids_after_canonical(old(self).ids(), block_number),
            forall|number: u64| #[trigger]
                final(self).ids().dom().contains(number) <==> old(self).ids().dom().contains(number)
                    && number + 256 >= block_number,
            forall|number: u64| #[trigger]
                final(self).ids().dom().contains(number) ==> final(self).ids()[number] == old(
                    self,
                ).ids()[number],
            final(self).source() == old(self).source(),
            final(self).shared_cache() == old(self).shared_cache(),
    {
        if block_number <= BLOCK_HASH_HISTORY {
            return;
        }
        forget_before(&mut self.block_number_to_id, block_number - BLOCK_HASH_HISTORY);
    }
}

/// Removes the entries before `oldest`.
fn forget_before(ids: &mut BTreeMap<u64, B256>, oldest: u64)
    ensures
        final(ids)@ == ids_from(old(ids)@, oldest),
{
    broadcast use vstd::std_specs::btree::group_btree_axioms;

    let ghost all = ids@;
    loop
        invariant
            all.dom().finite(),
            ids@.dom().finite(),
            forall|k: u64| #[trigger]
                ids@.dom().contains(k) ==> all.dom().contains(k) && ids@[k] == all[k],
            forall|k: u64| #[trigger]
                all.dom().contains(k) && k >= oldest ==> ids@.dom().contains(k),
        ensures
            ids@ == ids_from(all, oldest),
        decreases ids@.dom().len(),
    {
        match first_key(ids) {
            Some(first) => {
                if first < oldest {
                    pop_first(ids);
                } else {
                    assert(ids@ =~= ids_from(all, oldest));
                    break;
                }
            },
            None => {
                assert(ids@ =~= ids_from(all, oldest));
                break;
            },
        }
    }
}

/// The identifiers that a canonical block can ask for stay, and so does its own; older ones
/// are gone.
pub proof fn law_canonical_keeps_window(ids: Map<u64, B256>, block_number: u64, number: u64)
    ensures
        ({
            let kept = ids_after_canonical(ids, block_number);
            &&& number + BLOCK_HASH_HISTORY >= block_number ==> {
                &&& kept.dom().contains(number) <==> ids.dom().contains(number)
                &&& kept.dom().contains(number) ==> kept[number] == ids[number]
            }
            &&& number + BLOCK_HASH_HISTORY < block_number ==> !kept.dom().contains(number)
        }),
{
}

/// How many numbers there are from `low` up to `high`.
proof fn lemma_range_len(low: u64, high: u64)
    requires
        low <= high,
    ensures
        Set::new(|n: u64| low <= n <= high).finite(),
        Set::new(|n: u64| low <= n <= high).len() == high - low + 1,
    decreases high - low,
{
    let range = Set::new(|n: u64| low <= n <= high);
    if low == high {
        assert(range =~= Set::empty().insert(low));
    } else {
        let shorter = Set::new(|n: u64| low <= n <= high - 1);
        lemma_range_len(low, (high - 1) as u64);
        assert(range =~= shorter.insert(high));
    }
}

/// Where the identifiers of all blocks up to a canonical one were known, those left are the
/// block's own and those of [`BLOCK_HASH_HISTORY`] blocks before it.
pub proof fn law_canonical_window_size(ids: Map<u64, B256>, block_number: u64)
    requires
        block_number > BLOCK_HASH_HISTORY,
        forall|number: u64| #[trigger] ids.dom().contains(number) <==> number <= block_number,
    ensures
        ids_after_canonical(ids, block_number).dom().len() == BLOCK_HASH_HISTORY + 1,
{
    let oldest = (block_number - BLOCK_HASH_HISTORY) as u64;
    lemma_range_len(oldest, block_number);
    assert(ids_after_canonical(ids, block_number).dom() =~= Set::new(
        |n: u64| oldest <= n <= block_number,
    ));
}

/// A view of the state over a database transaction.
#[derive(Debug)]
pub struct RawBlockViewProvider<Tx, Cache> {
    /// The database transaction.
    pub tx: Tx,
    /// How the view shares the cache, if it does.
    pub cache: Option<Cache>,
}

/// A slot of the storage table: its key and its value.
#[derive(Clone, Copy, Debug)]
pub struct StorageEntry {
    /// The slot, the most significant byte first.
    pub key: B256,
    /// Its value.
    pub value: U256,
}

/// The account information for what the database or the cache says of an account.
pub open spec fn info_of(account: Option<Account>) -> Option<AccountInfo> {
    match account {
        Some(a) => Some(a.info()),
        None => None,
    }
}

/// The account information for what the database or the cache says of an account.
fn to_info(account: Option<Account>) -> (r: Option<AccountInfo>)
    ensures
        r == info_of(account),
        r is Some <==> account is Some,
        r matches Some(info) ==> {
            &&& info.nonce == account->0.nonce
            &&& info.balance == account->0.balance
            &&& account->0.bytecode_hash matches Some(hash) ==> info.code_hash == hash
            &&& account->0.bytecode_hash is None ==> info.code_hash == KECCAK_EMPTY
            &&& info.code is None
        },
{
    match account {
        Some(a) => Some(a.to_info()),
        None => None,
    }
}

/// A slot that is empty holds zero.
pub open spec fn value_of(value: Option<U256>) -> U256 {
    match value {
        Some(v) => v,
        None => U256_ZERO,
    }
}

/// A slot that is empty holds zero.
fn or_zero(value: Option<U256>) -> (r: U256)
    ensures
        r == value_of(value),
        value is None ==> r == U256_ZERO,
        value is Some ==> r == value->0,
{
    match value {
        Some(v) => v,
        None => U256_ZERO,
    }
}

/// The value of the slot `index`, where the storage table has `entry` at or behind it: zero
/// if that is another slot, or there is none.
pub open spec fn entry_value(entry: Option<StorageEntry>, index: U256) -> U256 {
    match entry {
        Some(e) => if e.key@ == abi::word(primitives::u256_value(index)) {
            e.value
        } else {
            U256_ZERO
        },
        None => U256_ZERO,
    }
}

/// An entry of the storage table counts for the slot that its key stands for, the most
/// significant byte first, and for no other. Without an entry the slot holds zero.
pub proof fn law_entry_counts_for_its_slot(entry: Option<StorageEntry>, index: U256)
    ensures
        entry is None ==> entry_value(entry, index) == U256_ZERO,
        entry matches Some(e) ==> {
            &&& abi::be_value(e.key@) == primitives::u256_value(index) ==> entry_value(entry, index)
                == e.value
            &&& abi::be_value(e.key@) != primitives::u256_value(index) ==> entry_value(entry, index)
                == U256_ZERO
        },
{
    if let Some(e) = entry {
        primitives::law_limbs_are_digits(index);
        abi::law_word_is_its_value(e.key@, primitives::u256_value(index));
    }
}

/// What is shown of an account has its nonce, its balance and its code hash, and what does not
/// exist is not shown. An empty slot is shown as zero, and any other with its value.
pub proof fn law_shown_with_its_fields(account: Option<Account>, value: Option<U256>)
    ensures
        info_of(account) is Some <==> account is Some,
        account matches Some(a) ==> {
            let info = info_of(account)->0;
            &&& info.nonce == a.nonce
            &&& info.balance == a.balance
            &&& a.bytecode_hash matches Some(hash) ==> info.code_hash == hash
            &&& a.bytecode_hash is None ==> info.code_hash == KECCAK_EMPTY
            &&& info.code is None
        },
        value is None ==> value_of(value) == U256_ZERO,
        value matches Some(v) ==> value_of(value) == v,
{
}

/// The value of the slot `index`, where the storage table has `entry` at or behind it.
pub fn value_at(entry: Option<StorageEntry>, index: &U256) -> (r: U256)
    ensures
        r == entry_value(entry, *index),
        entry is None ==> r == U256_ZERO,
        entry matches Some(e) ==> r == if abi::be_value(e.key@) == primitives::u256_value(*index) {
            e.value
        } else {
            U256_ZERO
        },
{
    proof {
        law_entry_counts_for_its_slot(entry, *index);
    }
    let storage_key = u256_to_be_bytes(index);
    match entry {
        Some(e) => {
            let same = b256_eq(&e.key, &storage_key);
            proof {
                if e.key@ == storage_key@ {
                    assert(e.key =~= storage_key);
                }
            }
            if same {
                e.value
            } else {
                U256_ZERO
            }
        },
        None => U256_ZERO,
    }
}

impl<Tx, Cache> RawBlockViewProvider<Tx, Cache> {
    /// A view over `tx` that shares `cache`, if there is one.
    pub fn new(tx: Tx, cache: Option<Cache>) -> (r: Self)
        ensures
            r.tx == tx,
            r.cache == cache,
    {
        RawBlockViewProvider { tx, cache }
    }

    /// The information of an account, `None` if it does not exist. `read` reads the account
    /// table.
    pub fn basic_ref<E>(
        &self,
        cache: Option<&mut PersistBlockCache>,
        address: Address,
        read: impl FnOnce(&Tx, &Address) -> Result<Option<Account>, E>,
    ) -> (r: Result<Option<AccountInfo>, E>)
        requires
            call_requires(read, (&self.tx, &address)),
        ensures
            ({
                let cached = match cache {
                    Some(c) => c@.account(address),
                    None => None,
                };
                match cached {
                    Some(account) => r matches Ok(info) && info == info_of(account),
                    None => exists|found: Result<Option<Account>, E>|
                        {
                            &&& #[trigger] call_ensures(read, (&self.tx, &address), found)
                            &&& match found {
                                Ok(account) => r matches Ok(info) && info == info_of(account),
                                Err(e) => r matches Err(error) && error == e,
                            }
                        },
                }
            }),
            cache matches Some(c) ==> {
                &&& final(c)@ == c@
                &&& final(c).counters() == c.counters().block_lookup(c@.account(address) is Some)
            },
    {
        if let Some(cache) = cache {
            if let Some(value) = cache.basic_account(&address) {
                return Ok(to_info(value));
            }
        }
        match read(&self.tx, &address) {
            Ok(account) => Ok(to_info(account)),
            Err(e) => Err(e),
        }
    }

    /// The code with this hash, empty if there is none, once the code table was read and
    /// `found` came back. What was found is cached.
    pub fn take_code<E>(
        &self,
        cache: Option<&mut PersistBlockCache>,
        code_hash: B256,
        found: Result<Option<Bytecode>, E>,
    ) -> (r: Result<Bytecode, E>)
        ensures
            match found {
                Ok(Some(code)) => {
                    &&& r matches Ok(bytes) && bytes@ == code@
                    &&& cache matches Some(c) ==> final(c)@ == model::filled_code(
                        c@,
                        code_hash,
                        code@,
                        c.counters().persist_block_number,
                    )
                },
                Ok(None) => {
                    &&& r matches Ok(bytes) && bytes@ == Seq::<u8>::empty()
                    &&& cache matches Some(c) ==> final(c)@ == c@
                },
                Err(e) => {
                    &&& r matches Err(error) && error == e
                    &&& cache matches Some(c) ==> final(c)@ == c@
                },
            },
            cache matches Some(c) ==> final(c).counters() == c.counters(),
    {
        match found {
            Ok(Some(byte_code)) => {
                if let Some(cache) = cache {
                    cache.cache_byte_code(code_hash, copy_bytes(&byte_code));
                }
                Ok(byte_code)
            },
            Ok(None) => Ok(Vec::new()),
            Err(e) => Err(e),
        }
    }

    /// The code with this hash, empty if there is none. `read` reads the code table, and what
    /// it finds is cached.
    pub fn code_by_hash_ref<E>(
        &self,
        cache: Option<&mut PersistBlockCache>,
        code_hash: B256,
        read: impl FnOnce(&Tx, &B256) -> Result<Option<Bytecode>, E>,
    ) -> (r: Result<Bytecode, E>)
        requires
            call_requires(read, (&self.tx, &code_hash)),
        ensures
            ({
                let cached = match cache {
                    Some(c) => c@.code(code_hash),
                    None => None,
                };
                match cached {
                    Some(code) => {
                        &&& r matches Ok(bytes) && bytes@ == code
                        &&& cache matches Some(c) ==> final(c)@ == c@
                    },
                    None => exists|found: Result<Option<Bytecode>, E>|
                        {
                            &&& #[trigger] call_ensures(read, (&self.tx, &code_hash), found)
                            &&& match found {
                                Ok(Some(code)) => {
                                    &&& r matches Ok(bytes) && bytes@ == code@
                                    &&& cache matches Some(c) ==> final(c)@ == model::filled_code(
                                        c@,
                                        code_hash,
                                        code@,
                                        c.counters().persist_block_number,
                                    )
                                },
                                Ok(None) => {
                                    &&& r matches Ok(bytes) && bytes@ == Seq::<u8>::empty()
                                    &&& cache matches Some(c) ==> final(c)@ == c@
                                },
                                Err(e) => {
                                    &&& r matches Err(error) && error == e
                                    &&& cache matches Some(c) ==> final(c)@ == c@
                                },
                            }
                        },
                }
            }),
            cache matches Some(c) ==> final(c).counters() == c.counters().block_lookup(
                c@.code(code_hash) is Some,
            ),
    {
        match cache {
            Some(cache) => {
                if let Some(value) = cache.bytecode_by_hash(&code_hash) {
                    return Ok(value);
                }
                let found = read(&self.tx, &code_hash);
                self.take_code(Some(cache), code_hash, found)
            },
            None => {
                let found = read(&self.tx, &code_hash);
                self.take_code(None, code_hash, found)
            },
        }
    }

    /// The value of a storage slot, zero if it is empty. `read` looks for the slot in the
    /// storage table, and may come up with a slot behind it.
    pub fn storage_ref<E>(
        &self,
        cache: Option<&mut PersistBlockCache>,
        address: Address,
        index: U256,
        read: impl FnOnce(&Tx, &Address, &B256) -> Result<Option<StorageEntry>, E>,
    ) -> (r: Result<U256, E>)
        requires
            forall|key: &B256|
                key@ == abi::word(primitives::u256_value(index)) ==> #[trigger] call_requires(
                    read,
                    (&self.tx, &address, key),
                ),
        ensures
            ({
                let cached = match cache {
                    Some(c) => c@.slot(address, index),
                    None => None,
                };
                match cached {
                    Some(value) => r matches Ok(v) && v == value_of(value),
                    None => exists|key: &B256, found: Result<Option<StorageEntry>, E>|
                        {
                            &&& key@ == abi::word(primitives::u256_value(index))
                            &&& #[trigger] call_ensures(read, (&self.tx, &address, key), found)
                            &&& match found {
                                Ok(entry) => r matches Ok(v) && v == entry_value(entry, index),
                                Err(e) => r matches Err(error) && error == e,
                            }
                        },
                }
            }),
            cache matches Some(c) ==> {
                &&& final(c)@ == c@
                &&& final(c).counters() == c.counters().block_lookup(c@.slot(address, index) is Some)
            },
    {
        if let Some(cache) = cache {
            if let Some(value) = cache.storage(&address, &index) {
                return Ok(or_zero(value));
            }
        }
        let storage_key = u256_to_be_bytes(&index);
        match read(&self.tx, &address, &storage_key) {
            Ok(entry) => Ok(value_at(entry, &index)),
            Err(e) => Err(e),
        }
    }
}

/// A view of the state over a state provider.
#[derive(Debug)]
pub struct BlockViewProvider<Db, Cache> {
    /// The state provider.
    pub db: Db,
    /// How the view shares the cache, if it does.
    pub cache: Option<Cache>,
}

impl<Db, Cache> BlockViewProvider<Db, Cache> {
    /// A view over `db` that shares `cache`, if there is one.
    pub fn new(db: Db, cache: Option<Cache>) -> (r: Self)
        ensures
            r.db == db,
            r.cache == cache,
    {
        BlockViewProvider { db, cache }
    }

    /// The information of an account, `None` if it does not exist. `read` asks the state
    /// provider.
    pub fn basic_ref<E>(
        &self,
        cache: Option<&mut PersistBlockCache>,
        address: Address,
        read: impl FnOnce(&Db, &Address) -> Result<Option<AccountInfo>, E>,
    ) -> (r: Result<Option<AccountInfo>, E>)
        requires
            call_requires(read, (&self.db, &address)),
        ensures
            ({
                let cached = match cache {
                    Some(c) => c@.account(address),
                    None => None,
                };
                match cached {
                    Some(account) => r matches Ok(info) && info == info_of(account),
                    None => call_ensures(read, (&self.db, &address), r),
                }
            }),
            cache matches Some(c) ==> {
                &&& final(c)@ == c@
                &&& final(c).counters() == c.counters().block_lookup(c@.account(address) is Some)
            },
    {
        if let Some(cache) = cache {
            if let Some(value) = cache.basic_account(&address) {
                return Ok(to_info(value));
            }
        }
        read(&self.db, &address)
    }

    /// The code with this hash, once the state provider was asked and `found` came back. What
    /// was found is cached.
    pub fn take_code<E>(
        &self,
        cache: Option<&mut PersistBlockCache>,
        code_hash: B256,
        found: Result<Bytecode, E>,
    ) -> (r: Result<Bytecode, E>)
        ensures
            r == found,
            cache matches Some(c) ==> final(c)@ == match found {
                Ok(code) => model::filled_code(
                    c@,
                    code_hash,
                    code@,
                    c.counters().persist_block_number,
                ),
                Err(_) => c@,
            },
            cache matches Some(c) ==> final(c).counters() == c.counters(),
    {
        match found {
            Ok(byte_code) => {
                if let Some(cache) = cache {
                    cache.cache_byte_code(code_hash, copy_bytes(&byte_code));
                }
                Ok(byte_code)
            },
            Err(e) => Err(e),
        }
    }

    /// The code with this hash. `read` asks the state provider, and what it finds is cached.
    pub fn code_by_hash_ref<E>(
        &self,
        cache: Option<&mut PersistBlockCache>,
        code_hash: B256,
        read: impl FnOnce(&Db, &B256) -> Result<Bytecode, E>,
    ) -> (r: Result<Bytecode, E>)
        requires
            call_requires(read, (&self.db, &code_hash)),
        ensures
            ({
                let cached = match cache {
                    Some(c) => c@.code(code_hash),
                    None => None,
                };
                match cached {
                    Some(code) => {
                        &&& r matches Ok(bytes) && bytes@ == code
                        &&& cache matches Some(c) ==> final(c)@ == c@
                    },
                    None => {
                        &&& call_ensures(read, (&self.db, &code_hash), r)
                        &&& cache matches Some(c) ==> final(c)@ == match r {
                            Ok(code) => model::filled_code(
                                c@,
                                code_hash,
                                code@,
                                c.counters().persist_block_number,
                            ),
                            Err(_) => c@,
                        }
                    },
                }
            }),
            cache matches Some(c) ==> final(c).counters() == c.counters().block_lookup(
                c@.code(code_hash) is Some,
            ),
    {
        match cache {
            Some(cache) => {
                if let Some(value) = cache.bytecode_by_hash(&code_hash) {
                    return Ok(value);
                }
                let found = read(&self.db, &code_hash);
                self.take_code(Some(cache), code_hash, found)
            },
            None => {
                let found = read(&self.db, &code_hash);
                self.take_code(None, code_hash, found)
            },
        }
    }

    /// The value of a storage slot, zero if it is empty. `read` asks the state provider.
    pub fn storage_ref<E>(
        &self,
        cache: Option<&mut PersistBlockCache>,
        address: Address,
        index: U256,
        read: impl FnOnce(&Db, &Address, &U256) -> Result<U256, E>,
    ) -> (r: Result<U256, E>)
        requires
            call_requires(read, (&self.db, &address, &index)),
        ensures
            ({
                let cached = match cache {
                    Some(c) => c@.slot(address, index),
                    None => None,
                };
                match cached {
                    Some(value) => r matches Ok(v) && v == value_of(value),
                    None => call_ensures(read, (&self.db, &address, &index), r),
                }
            }),
            cache matches Some(c) ==> {
                &&& final(c)@ == c@
                &&& final(c).counters() == c.counters().block_lookup(c@.slot(address, index) is Some)
            },
    {
        if let Some(cache) = cache {
            if let Some(value) = cache.storage(&address, &index) {
                return Ok(or_zero(value));
            }
        }
        read(&self.db, &address, &index)
    }
}

/// The account information that a view over `cache` shows, where the database has `stored`.
pub open spec fn seen_account(
    cache: CacheState,
    stored: Map<Address, Account>,
    address: Address,
) -> Option<AccountInfo> {
    match cache.account(address) {
        Some(account) => info_of(account),
        None => info_of(model::lookup(stored, address)),
    }
}

/// The value of a slot that a view over `cache` shows, where the database has `stored`.
pub open spec fn seen_slot(
    cache: CacheState,
    stored: Map<(Address, U256), U256>,
    address: Address,
    slot: U256,
) -> U256 {
    match cache.slot(address, slot) {
        Some(value) => value_of(value),
        None => value_of(model::lookup(stored, (address, slot))),
    }
}

/// Whether the database has what the cache has of blocks up to `height`. An account that does
/// not exist has no slots, neither in the database nor of later blocks in the cache.
pub open spec fn is_stored(
    cache: CacheState,
    accounts: Map<Address, Account>,
    slots: Map<(Address, U256), U256>,
    height: u64,
) -> bool {
    &&& forall|a: Address| #[trigger]
        cache.accounts.dom().contains(a) && cache.accounts[a].block_number <= height ==> {
            &&& model::lookup(accounts, a) == cache.accounts[a].value
            &&& cache.accounts[a].value is None ==> {
                &&& !cache.storage.dom().contains(a)
                &&& forall|k: U256| value_of(#[trigger] model::lookup(slots, (a, k))) == U256_ZERO
            }
        }
    &&& forall|a: Address, k: U256|
        cache.storage.dom().contains(a) && #[trigger] cache.storage[a].dom().contains(k)
            && cache.storage[a][k].block_number <= height ==> value_of(
            model::lookup(slots, (a, k)),
        ) == value_of(cache.storage[a][k].value)
}

/// Evicting what is stored changes nothing that a view shows.
pub proof fn law_eviction_is_invisible(
    cache: CacheState,
    accounts: Map<Address, Account>,
    slots: Map<(Address, U256), U256>,
    height: u64,
    address: Address,
    slot: U256,
)
    requires
        is_stored(cache, accounts, slots, height),
    ensures
        ({
            let evicted = eviction::evicted_state(cache, height);
            &&& seen_account(evicted, accounts, address) == seen_account(cache, accounts, address)
            &&& seen_slot(evicted, slots, address, slot) == seen_slot(cache, slots, address, slot)
        }),
{
    let evicted = eviction::evicted_state(cache, height);
    if cache.storage.dom().contains(address) && cache.storage[address].dom().contains(slot) {
        if cache.storage[address][slot].block_number > height {
            assert(evicted.storage.dom().contains(address));
        }
    }
}

/// What a view shows of an account that a block changed is what the block left of it, whatever
/// the database has.
pub proof fn law_view_shows_merged_accounts(
    cache: CacheState,
    block_number: u64,
    known: OriginalValuesKnown,
    state: Seq<(Address, BundleAccount)>,
    contracts: Seq<(B256, Vec<u8>)>,
    i: int,
    stored: Map<Address, Account>,
)
    requires
        laws::distinct_keys(state),
        0 <= i < state.len(),
        known is No || state[i].1.info_changed(),
    ensures
        ({
            let merged = model::merged_block(cache, block_number, known, state, contracts);
            match (seen_account(merged, stored, state[i].0), state[i].1.info) {
                (Some(seen), Some(info)) => seen.same_as(info),
                (None, None) => true,
                _ => false,
            }
        }),
{
    laws::law_account_reads_its_write(cache, block_number, known, state, contracts, i);
}

/// What a view shows of a slot that a block wrote is what the block wrote, whatever the
/// database has, and zero where the account is gone. A value of zero is shown only where the
/// account had cached slots and was not destroyed.
pub proof fn law_view_shows_merged_slots(
    cache: CacheState,
    block_number: u64,
    known: OriginalValuesKnown,
    state: Seq<(Address, BundleAccount)>,
    contracts: Seq<(B256, Vec<u8>)>,
    i: int,
    j: int,
    stored: Map<(Address, U256), U256>,
)
    requires
        laws::distinct_keys(state),
        0 <= i < state.len(),
        laws::distinct_keys(state[i].1.storage@),
        0 <= j < state[i].1.storage@.len(),
        model::slot_is_written(known, state[i].1.status.destroyed(), state[i].1.storage@[j].1),
        ({
            ||| state[i].1.storage@[j].1.present_value != U256_ZERO
            ||| !state[i].1.status.destroyed() && cache.storage.dom().contains(state[i].0)
        }),
    ensures
        ({
            let merged = model::merged_block(cache, block_number, known, state, contracts);
            let (slot, change) = state[i].1.storage@[j];
            seen_slot(merged, stored, state[i].0, slot) == if merged.account(state[i].0) == Some(
                None::<Account>,
            ) {
                U256_ZERO
            } else {
                change.present_value
            }
        }),
{
    laws::law_slot_reads_its_write(cache, block_number, known, state, contracts, i, j);
}

/// A view shows balance, nonce and code hash that a block left of an account whose balance, nonce
/// or code hash it changed, or that it brought into being, and does not show one that it
/// removed, whatever the database has. So it does of every account of the block where the
/// original values are not known.
pub proof fn law_view_shows_changed_accounts(
    cache: CacheState,
    block_number: u64,
    known: OriginalValuesKnown,
    state: Seq<(Address, BundleAccount)>,
    contracts: Seq<(B256, Vec<u8>)>,
    i: int,
    stored: Map<Address, Account>,
)
    requires
        forall|j: int, k: int|
            0 <= j < k < state.len() ==> #[trigger] state[j].0 != #[trigger] state[k].0,
        0 <= i < state.len(),
        ({
            let (info, original) = (state[i].1.info, state[i].1.original_info);
            ||| known is No
            ||| info is Some != original is Some
            ||| info is Some && original is Some && {
                ||| info->0.balance != original->0.balance
                ||| info->0.nonce != original->0.nonce
                ||| info->0.code_hash != original->0.code_hash
            }
        }),
    ensures
        ({
            let merged = model::merged_block(cache, block_number, known, state, contracts);
            match (seen_account(merged, stored, state[i].0), state[i].1.info) {
                (Some(seen), Some(info)) => {
                    &&& seen.balance == info.balance
                    &&& seen.nonce == info.nonce
                    &&& seen.code_hash == info.code_hash
                },
                (None, None) => true,
                _ => false,
            }
        }),
{
    entries::law_merge_writes_changed_accounts(cache, block_number, known, state, contracts, i);
}

/// A view shows what the cache knows, and where it does not know what the database has. An
/// account that neither has does not exist, and such a slot holds zero.
pub proof fn law_view_prefers_cache(
    cache: CacheState,
    accounts: Map<Address, Account>,
    slots: Map<(Address, U256), U256>,
    address: Address,
    slot: U256,
)
    ensures
        cache.account(address) matches Some(account) ==> seen_account(cache, accounts, address)
            == info_of(account),
        cache.account(address) is None ==> seen_account(cache, accounts, address)
            == if accounts.dom().contains(address) {
            Some(accounts[address].info())
        } else {
            None
        },
        cache.slot(address, slot) matches Some(value) ==> seen_slot(cache, slots, address, slot)
            == value_of(value),
        cache.slot(address, slot) is None ==> seen_slot(cache, slots, address, slot)
            == if slots.dom().contains((address, slot)) {
            slots[(address, slot)]
        } else {
            U256_ZERO
        },
{
}

} // verus!
