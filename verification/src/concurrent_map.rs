//! The concurrent hash maps that hold the cache.
//!
//! Contracts speak of a map through [`Contents::contents`], a mathematical map
//! from keys to values. Every operation that changes a map takes it by `&mut`,
//! so that nobody else can change it in the meantime. Keys are arrays and tuples of
//! integers, so two of them are the same key exactly where they are equal.

use core::hash::Hash;
use dashmap::DashMap;
use vstd::prelude::*;

use crate::primitives::{Address, Bytecode, Nibbles, Node, B256, U256};
use crate::state::Account;

verus! {

/// The concurrent hash map of the `dashmap` crate. Its representation is opaque.
#[verifier::external_type_specification]
#[verifier::external_body]
#[verifier::reject_recursive_types(K)]
#[verifier::reject_recursive_types(V)]
#[verifier::reject_recursive_types(S)]
pub struct ExDashMap<K, V, S>(DashMap<K, V, S>);

/// A cached value together with the number of the block it belongs to.
#[derive(Debug)]
pub struct ValueWithTip<V> {
    /// The cached value.
    pub value: V,
    /// The block that wrote the value, or the persisted tip at the time it was read.
    pub block_number: u64,
}

impl<V> ValueWithTip<V> {
    /// Pairs `value` with `block_number`.
    pub fn new(value: V, block_number: u64) -> (r: Self)
        ensures
            r.value == value,
            r.block_number == block_number,
    {
        ValueWithTip { value, block_number }
    }

    /// Whether the value belongs to a block after `height`.
    pub fn is_newer_than(&self, height: u64) -> (r: bool)
        ensures
            r == (self.block_number > height),
    {
        self.block_number > height
    }
}

impl<V: Clone> Clone for ValueWithTip<V> {
    fn clone(&self) -> (r: Self)
        ensures
            r.block_number == self.block_number,
            cloned(self.value, r.value),
    {
        ValueWithTip { value: self.value.clone(), block_number: self.block_number }
    }
}

/// Accounts by address; `None` records that the account does not exist.
pub type AccountMap = DashMap<Address, ValueWithTip<Option<Account>>>;

/// Storage slots of one account; `None` records that the slot is empty.
pub type SlotMap = DashMap<U256, ValueWithTip<Option<U256>>>;

/// Storage slots by account address.
pub type StorageMap = DashMap<Address, SlotMap>;

/// Contract code by code hash.
pub type CodeMap = DashMap<B256, ValueWithTip<Bytecode>>;

/// Nodes of one trie by path.
pub type TrieMap = DashMap<Nibbles, ValueWithTip<Node>>;

/// Storage tries by hashed account address.
pub type StorageTrieMap = DashMap<B256, TrieMap>;

/// What an account map holds.
pub uninterp spec fn account_map_contents(map: AccountMap) -> Map<Address, ValueWithTip<Option<Account>>>;

/// What a slot map holds.
pub uninterp spec fn slot_map_contents(map: SlotMap) -> Map<U256, ValueWithTip<Option<U256>>>;

/// What a storage map holds.
pub uninterp spec fn storage_map_contents(map: StorageMap) -> Map<Address, SlotMap>;

/// What a code map holds.
pub uninterp spec fn code_map_contents(map: CodeMap) -> Map<B256, ValueWithTip<Bytecode>>;

/// What a trie map holds.
pub uninterp spec fn trie_map_contents(map: TrieMap) -> Map<Nibbles, ValueWithTip<Node>>;

/// What a storage trie map holds.
pub uninterp spec fn storage_trie_map_contents(map: StorageTrieMap) -> Map<B256, TrieMap>;

/// A map whose contents contracts can speak of.
pub trait Contents<K, V> {
    /// The keys of the map and the value of each.
    spec fn contents(&self) -> Map<K, V>;
}

impl Contents<Address, ValueWithTip<Option<Account>>> for AccountMap {
    open spec fn contents(&self) -> Map<Address, ValueWithTip<Option<Account>>> {
        account_map_contents(*self)
    }
}

impl Contents<U256, ValueWithTip<Option<U256>>> for SlotMap {
    open spec fn contents(&self) -> Map<U256, ValueWithTip<Option<U256>>> {
        slot_map_contents(*self)
    }
}

impl Contents<Address, SlotMap> for StorageMap {
    open spec fn contents(&self) -> Map<Address, SlotMap> {
        storage_map_contents(*self)
    }
}

impl Contents<B256, ValueWithTip<Bytecode>> for CodeMap {
    open spec fn contents(&self) -> Map<B256, ValueWithTip<Bytecode>> {
        code_map_contents(*self)
    }
}

impl Contents<Nibbles, ValueWithTip<Node>> for TrieMap {
    open spec fn contents(&self) -> Map<Nibbles, ValueWithTip<Node>> {
        trie_map_contents(*self)
    }
}

impl Contents<B256, TrieMap> for StorageTrieMap {
    open spec fn contents(&self) -> Map<B256, TrieMap> {
        storage_trie_map_contents(*self)
    }
}

/// The entries of `map` that belong to a block after `height`.
pub open spec fn newer_than<K, V>(map: Map<K, ValueWithTip<V>>, height: u64) -> Map<K, ValueWithTip<V>> {
    Map::new(|k: K| map.dom().contains(k) && map[k].block_number > height, |k: K| map[k])
}

/// `keys` lists each element of `set` once.
pub open spec fn enumerates<K>(keys: Seq<K>, set: Set<K>) -> bool {
    &&& keys.no_duplicates()
    &&& keys.to_set() == set
}

/// `set` is finite and has `n` elements.
pub open spec fn counts<K>(n: nat, set: Set<K>) -> bool {
    set.finite() && set.len() == n
}

/// `DashMap::new`: the new map holds nothing.
#[verifier::external_body]
pub(crate) fn new_account_map() -> (r: AccountMap)
    ensures
        account_map_contents(r).dom() == Set::<Address>::empty(),
{
    DashMap::new()
}

/// `DashMap::new`: the new map holds nothing.
#[verifier::external_body]
pub(crate) fn new_slot_map() -> (r: SlotMap)
    ensures
        slot_map_contents(r).dom() == Set::<U256>::empty(),
{
    DashMap::new()
}

/// `DashMap::new`: the new map holds nothing.
#[verifier::external_body]
pub(crate) fn new_storage_map() -> (r: StorageMap)
    ensures
        storage_map_contents(r).dom() == Set::<Address>::empty(),
{
    DashMap::new()
}

/// `DashMap::new`: the new map holds nothing.
#[verifier::external_body]
pub(crate) fn new_code_map() -> (r: CodeMap)
    ensures
        code_map_contents(r).dom() == Set::<B256>::empty(),
{
    DashMap::new()
}

/// `DashMap::new`: the new map holds nothing.
#[verifier::external_body]
pub(crate) fn new_trie_map() -> (r: TrieMap)
    ensures
        trie_map_contents(r).dom() == Set::<Nibbles>::empty(),
{
    DashMap::new()
}

/// `DashMap::new`: the new map holds nothing.
#[verifier::external_body]
pub(crate) fn new_storage_trie_map() -> (r: StorageTrieMap)
    ensures
        storage_trie_map_contents(r).dom() == Set::<B256>::empty(),
{
    DashMap::new()
}

/// `DashMap::get`: a clone of the value under `key`, `None` if there is none.
#[verifier::external_body]
pub(crate) fn map_get<K: Eq + Hash, V: Clone>(map: &DashMap<K, V>, key: &K) -> (r: Option<V>) where
    DashMap<K, V>: Contents<K, V>,

    ensures
        r is Some <==> map.contents().dom().contains(*key),
        r matches Some(v) ==> cloned(map.contents()[*key], v),
{
    map.get(key).map(|entry| entry.value().clone())
}

/// `DashMap::get` on a map of maps and then on the inner map: `None` if there is no
/// inner map under `outer`, else a clone of what the inner map has under `key`.
#[verifier::external_body]
pub(crate) fn map_get_within<P: Eq + Hash, K: Eq + Hash, V: Clone>(
    map: &DashMap<P, DashMap<K, V>>,
    outer: &P,
    key: &K,
) -> (r: Option<Option<V>>) where
    DashMap<P, DashMap<K, V>>: Contents<P, DashMap<K, V>>,
    DashMap<K, V>: Contents<K, V>,

    ensures
        r is Some <==> map.contents().dom().contains(*outer),
        r matches Some(v) ==> (v is Some <==> map.contents()[*outer].contents().dom().contains(*key)),
        r matches Some(Some(v)) ==> cloned(map.contents()[*outer].contents()[*key], v),
{
    map.get(outer).map(|inner| inner.value().get(key).map(|entry| entry.value().clone()))
}

/// `DashMap::insert`: puts `value` under `key` and hands out the value it replaces.
#[verifier::external_body]
pub(crate) fn map_insert<K: Eq + Hash, V>(map: &mut DashMap<K, V>, key: K, value: V) -> (r: Option<V>)
    where DashMap<K, V>: Contents<K, V>,

    ensures
        final(map).contents() == old(map).contents().insert(key, value),
        r is Some <==> old(map).contents().dom().contains(key),
        r matches Some(v) ==> v == old(map).contents()[key],
{
    map.insert(key, value)
}

/// `DashMap::entry` and then `Entry::or_insert`: puts `value` under `key` unless a
/// value is there already.
#[verifier::external_body]
pub(crate) fn map_insert_if_vacant<K: Eq + Hash, V>(map: &mut DashMap<K, V>, key: K, value: V) where
    DashMap<K, V>: Contents<K, V>,

    ensures
        final(map).contents() == if old(map).contents().dom().contains(key) {
            old(map).contents()
        } else {
            old(map).contents().insert(key, value)
        },
{
    map.entry(key).or_insert(value);
}

/// `DashMap::remove`: takes the value under `key` out of the map.
#[verifier::external_body]
pub(crate) fn map_remove<K: Eq + Hash, V>(map: &mut DashMap<K, V>, key: &K) -> (r: Option<V>) where
    DashMap<K, V>: Contents<K, V>,

    ensures
        final(map).contents() == old(map).contents().remove(*key),
        r is Some <==> old(map).contents().dom().contains(*key),
        r matches Some(v) ==> v == old(map).contents()[*key],
{
    map.remove(key).map(|entry| entry.1)
}

/// `DashMap::retain`: drops the entries that do not belong to a block after `height`.
#[verifier::external_body]
pub(crate) fn map_retain_newer<K: Eq + Hash, V>(map: &mut DashMap<K, ValueWithTip<V>>, height: u64)
    where DashMap<K, ValueWithTip<V>>: Contents<K, ValueWithTip<V>>,

    ensures
        final(map).contents() == newer_than(old(map).contents(), height),
{
    map.retain(|_, value| value.is_newer_than(height));
}

/// `DashMap::len`: the number of keys, which is finite.
#[verifier::external_body]
pub(crate) fn map_len<K: Eq + Hash, V>(map: &DashMap<K, V>) -> (r: usize) where
    DashMap<K, V>: Contents<K, V>,

    ensures
        counts(r as nat, map.contents().dom()),
{
    map.len()
}

/// `DashMap::get` on a map of maps and then `DashMap::len` on the inner map: the number of
/// its keys, `None` if there is no inner map under `outer`.
#[verifier::external_body]
pub(crate) fn map_len_within<P: Eq + Hash, K: Eq + Hash, V>(
    map: &DashMap<P, DashMap<K, V>>,
    outer: &P,
) -> (r: Option<usize>) where
    DashMap<P, DashMap<K, V>>: Contents<P, DashMap<K, V>>,
    DashMap<K, V>: Contents<K, V>,

    ensures
        r is Some <==> map.contents().dom().contains(*outer),
        r matches Some(n) ==> counts(n as nat, map.contents()[*outer].contents().dom()),
{
    map.get(outer).map(|inner| inner.value().len())
}

/// `DashMap::iter`: the keys of the map, each once, in no particular order.
#[verifier::external_body]
pub(crate) fn map_keys<K: Eq + Hash + Copy, V>(map: &DashMap<K, V>) -> (r: Vec<K>) where
    DashMap<K, V>: Contents<K, V>,

    ensures
        enumerates(r@, map.contents().dom()),
{
    map.iter().map(|entry| *entry.key()).collect()
}

/// `DashMap::iter`: the keys of the map, each once, in no particular order, and with
/// each the number of the block that its value belongs to.
#[verifier::external_body]
pub(crate) fn map_tips<K: Eq + Hash + Copy, V>(map: &DashMap<K, ValueWithTip<V>>) -> (r: Vec<(K, u64)>)
    where DashMap<K, ValueWithTip<V>>: Contents<K, ValueWithTip<V>>,

    ensures
        enumerates(r@.map_values(|e: (K, u64)| e.0), map.contents().dom()),
        forall|i: int| 0 <= i < r@.len() ==> #[trigger] r@[i].1 == map.contents()[r@[i].0].block_number,
{
    map.iter().map(|entry| (*entry.key(), entry.value().block_number)).collect()
}

} // verus!
