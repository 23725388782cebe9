//! Keeping the cache bounded: dropping entries that belong to blocks persisted long ago.

use core::hash::Hash;
use dashmap::DashMap;
use vstd::prelude::*;

use super::metrics::{CacheMetricsReporter, CacheReport};
use super::model::CacheState;
use super::PersistBlockCache;
use crate::concurrent_map;
use crate::concurrent_map::{
    map_insert, map_keys, map_len, map_len_within, map_remove, map_retain_newer, map_tips, CodeMap,
    Contents, ValueWithTip,
};
use crate::primitives::{Nibbles, B256};

verus! {

/// How many contracts the cache holds at most after an eviction.
pub const CACHE_CONTRACTS_THRESHOLD: usize = 2_000;

/// The heights of the latest evictions, zero before the first.
#[derive(Clone, Copy, Debug, PartialEq, Eq, Structural)]
pub struct EvictionHeights {
    /// Height of the latest eviction of contracts.
    pub last_contract_eviction_height: u64,
    /// Height of the latest eviction of accounts, slots and trie nodes.
    pub last_state_eviction_height: u64,
}

impl EvictionHeights {
    /// Before the first eviction.
    pub fn new() -> (r: Self)
        ensures
            r.last_contract_eviction_height == 0,
            r.last_state_eviction_height == 0,
    {
        EvictionHeights { last_contract_eviction_height: 0, last_state_eviction_height: 0 }
    }
}

/// Up to which block entries are evicted: at first the later of 512 blocks behind the
/// persisted tip and half of it, afterwards halfway from the last eviction to the tip.
pub open spec fn eviction_height(persist_height: u64, last_height: u64) -> u64 {
    if last_height == 0 {
        let behind: int = if persist_height >= 512 {
            persist_height - 512
        } else {
            0
        };
        if behind >= persist_height / 2 {
            behind as u64
        } else {
            persist_height / 2
        }
    } else {
        ((persist_height + last_height) / 2) as u64
    }
}

/// Up to which block entries are evicted.
pub fn next_eviction_height(persist_height: u64, last_height: u64) -> (r: u64)
    requires
        persist_height + last_height <= u64::MAX,
    ensures
        r == eviction_height(persist_height, last_height),
        last_height == 0 ==> {
            &&& r >= persist_height / 2
            &&& r + 512 >= persist_height
            &&& r == persist_height / 2 || r + 512 == persist_height
        },
        last_height != 0 ==> 2 * r <= persist_height + last_height < 2 * r + 2,
{
    if last_height == 0 {
        let behind: u64 = persist_height.saturating_sub(512);
        let half: u64 = persist_height / 2;
        if behind >= half {
            behind
        } else {
            half
        }
    } else {
        (persist_height + last_height) / 2
    }
}

/// Whether an entry of `map` belongs to a block after `height`.
pub open spec fn has_newer_than<K, V>(map: Map<K, ValueWithTip<V>>, height: u64) -> bool {
    exists|k: K| #[trigger] map.dom().contains(k) && map[k].block_number > height
}

/// Each map in `map` with its entries that belong to a block after `height`; those of which
/// nothing is left are gone.
pub open spec fn nested_newer_than<P, K, V>(
    map: Map<P, Map<K, ValueWithTip<V>>>,
    height: u64,
) -> Map<P, Map<K, ValueWithTip<V>>> {
    Map::new(
        |p: P| map.dom().contains(p) && has_newer_than(map[p], height),
        |p: P| concurrent_map::newer_than(map[p], height),
    )
}

/// The cache without the accounts, slots and trie nodes that belong to blocks up to `height`,
/// and without accounts and tries of which nothing is left.
pub open spec fn evicted_state(s: CacheState, height: u64) -> CacheState {
    CacheState {
        accounts: concurrent_map::newer_than(s.accounts, height),
        storage: nested_newer_than(s.storage, height),
        account_trie: concurrent_map::newer_than(s.account_trie, height),
        storage_trie: nested_newer_than(s.storage_trie, height),
        ..s
    }
}

/// `after` is `before` without its oldest entries, so that at most `limit` are left. Which
/// of several entries of the same block go is left open.
pub open spec fn oldest_dropped<K, V>(
    before: Map<K, ValueWithTip<V>>,
    after: Map<K, ValueWithTip<V>>,
    limit: nat,
) -> bool {
    &&& after.submap_of(before)
    &&& before.dom().len() <= limit ==> after == before
    &&& before.dom().len() > limit ==> after.dom().len() == limit
    &&& forall|gone: K, kept: K|
        #![trigger before.dom().contains(gone), after.dom().contains(kept)]
        before.dom().contains(gone) && !after.dom().contains(gone) && after.dom().contains(kept)
            ==> before[gone].block_number <= after[kept].block_number
}

/// `slice::sort_unstable_by_key` by block number: the same entries, the oldest first.
#[verifier::external_body]
fn sort_by_block_number(entries: &mut Vec<(B256, u64)>)
    ensures
        final(entries)@.to_multiset() == old(entries)@.to_multiset(),
        forall|i: int, j: int| 0 <= i <= j < final(entries)@.len() ==> final(entries)@[i].1 <= final(entries)@[j].1,
{
    entries.sort_unstable_by_key(|entry| entry.1);
}

/// The keys of a list of entries.
spec fn keys_of(entries: Seq<(B256, u64)>) -> Seq<B256> {
    entries.map_values(|e: (B256, u64)| e.0)
}

/// `entries` lists each key of `map` once, with the block number of its value.
spec fn lists<V>(entries: Seq<(B256, u64)>, map: Map<B256, ValueWithTip<V>>) -> bool {
    &&& concurrent_map::enumerates(keys_of(entries), map.dom())
    &&& forall|i: int|
        0 <= i < entries.len() ==> #[trigger] entries[i].1 == map[entries[i].0].block_number
}

/// Reordering a list of entries does not change what it lists.
proof fn lemma_reordered_lists<V>(
    entries: Seq<(B256, u64)>,
    reordered: Seq<(B256, u64)>,
    map: Map<B256, ValueWithTip<V>>,
)
    requires
        lists(entries, map),
        reordered.to_multiset() == entries.to_multiset(),
    ensures
        lists(reordered, map),
{
    broadcast use vstd::seq_lib::group_to_multiset_ensures;

    assert forall|e: (B256, u64)| entries.contains(e) <==> reordered.contains(e) by {
        assert(entries.contains(e) <==> entries.to_multiset().count(e) > 0);
        assert(reordered.contains(e) <==> reordered.to_multiset().count(e) > 0);
    }
    assert forall|e: (B256, u64), f: (B256, u64)|
        entries.contains(e) && entries.contains(f) && e.0 == f.0 implies e == f by {
        let i = choose|i: int| 0 <= i < entries.len() && entries[i] == e;
        let j = choose|j: int| 0 <= j < entries.len() && entries[j] == f;
        assert(keys_of(entries)[i] == e.0 && keys_of(entries)[j] == f.0);
    }
    assert(entries.no_duplicates()) by {
        assert forall|i: int, j: int|
            0 <= i < entries.len() && 0 <= j < entries.len() && i != j implies entries[i]
            != entries[j] by {
            assert(keys_of(entries)[i] != keys_of(entries)[j]);
        }
    }
    entries.lemma_multiset_has_no_duplicates();
    assert(reordered.no_duplicates()) by {
        reordered.lemma_multiset_has_no_duplicates_conv();
    }
    let keys = keys_of(reordered);
    assert forall|i: int, j: int|
        0 <= i < keys.len() && 0 <= j < keys.len() && i != j implies keys[i] != keys[j] by {
        if keys[i] == keys[j] {
            assert(reordered.contains(reordered[i]) && reordered.contains(reordered[j]));
            assert(reordered[i] == reordered[j]);
        }
    }
    assert forall|k: B256| keys.to_set().contains(k) <==> map.dom().contains(k) by {
        if keys.contains(k) {
            let i = choose|i: int| 0 <= i < keys.len() && keys[i] == k;
            assert(reordered.contains(reordered[i]));
            let j = choose|j: int| 0 <= j < entries.len() && entries[j] == reordered[i];
            assert(keys_of(entries)[j] == k);
            assert(keys_of(entries).to_set().contains(k));
        }
        if map.dom().contains(k) {
            assert(keys_of(entries).to_set().contains(k));
            let j = choose|j: int| 0 <= j < entries.len() && keys_of(entries)[j] == k;
            assert(entries.contains(entries[j]));
            let i = choose|i: int| 0 <= i < reordered.len() && reordered[i] == entries[j];
            assert(keys[i] == k);
        }
    }
    assert(keys.to_set() =~= map.dom());
    assert forall|i: int| 0 <= i < reordered.len() implies #[trigger] reordered[i].1
        == map[reordered[i].0].block_number by {
        assert(reordered.contains(reordered[i]));
        let j = choose|j: int| 0 <= j < entries.len() && entries[j] == reordered[i];
        assert(entries[j].1 == map[entries[j].0].block_number);
    }
}

/// Drops the oldest contracts, so that at most `limit` are left.
fn drop_oldest(contracts: &mut CodeMap, limit: usize)
    ensures
        oldest_dropped(old(contracts).contents(), final(contracts).contents(), limit as nat),
{
    let ghost before = contracts.contents();
    let overflow: usize = map_len(contracts).saturating_sub(limit);
    if overflow > 0 {
        let mut victims = map_tips(contracts);
        let ghost listed = victims@;
        sort_by_block_number(&mut victims);
        let ghost keys = keys_of(victims@);
        proof {
            lemma_reordered_lists(listed, victims@, before);
            keys.unique_seq_to_set();
        }
        let mut i: usize = 0;
        while i < overflow
            invariant
                i <= overflow,
                overflow == before.dom().len() - limit,
                keys == keys_of(victims@),
                lists(victims@, before),
                keys.len() == before.dom().len(),
                before.dom().finite(),
                contracts.contents().submap_of(before),
                forall|k: B256| #[trigger]
                    contracts.contents().dom().contains(k) <==> before.dom().contains(k)
                        && !keys.take(i as int).contains(k),
                contracts.contents().dom().len() == before.dom().len() - i,
            decreases overflow - i,
        {
            let ghost current = contracts.contents();
            let code_hash = victims[i].0;
            proof {
                assert(keys[i as int] == code_hash);
                assert(keys.to_set().contains(code_hash));
                assert(!keys.take(i as int).contains(code_hash));
                assert(current.dom().contains(code_hash));
                assert(current.dom().subset_of(before.dom()));
                assert(current.dom().finite());
            }
            map_remove(contracts, &code_hash);
            proof {
                let next = keys.take(i + 1);
                assert forall|k: B256|
                    next.contains(k) <==> keys.take(i as int).contains(k) || k == code_hash by {
                    if keys.take(i as int).contains(k) {
                        let j = choose|j: int| 0 <= j < i && keys.take(i as int)[j] == k;
                        assert(next[j] == k);
                    }
                    assert(next[i as int] == code_hash);
                    if next.contains(k) && k != code_hash {
                        let j = choose|j: int| 0 <= j < i + 1 && next[j] == k;
                        assert(keys.take(i as int)[j] == k);
                    }
                }
            }
            i += 1;
        }
        proof {
            let after = contracts.contents();
            assert forall|gone: B256, kept: B256|
                #![trigger before.dom().contains(gone), after.dom().contains(kept)]
                before.dom().contains(gone) && !after.dom().contains(gone) && after.dom().contains(
                    kept,
                ) implies before[gone].block_number <= after[kept].block_number by {
                let a = choose|a: int|
                    0 <= a < overflow && keys.take(overflow as int)[a] == gone;
                assert(keys.to_set().contains(kept));
                let b = choose|b: int| 0 <= b < keys.len() && keys[b] == kept;
                if b < overflow {
                    assert(keys.take(overflow as int)[b] == kept);
                }
                assert(victims@[a].1 <= victims@[b].1);
                assert(victims@[a].0 == gone && victims@[b].0 == kept);
            }
        }
    } else {
        assert(contracts.contents().submap_of(before));
    }
}

/// What a map of maps holds, with the contents of each inner map.
spec fn nested_contents<P, K, V>(map: DashMap<P, DashMap<K, V>>) -> Map<P, Map<K, V>> where
    DashMap<P, DashMap<K, V>>: Contents<P, DashMap<K, V>>,
    DashMap<K, V>: Contents<K, V>,
 {
    map.contents().map_values(|inner: DashMap<K, V>| inner.contents())
}

/// Drops the entries of the inner maps that do not belong to a block after `height`, and the
/// inner maps of which nothing is left.
fn retain_nested<P: Eq + Hash + Copy, K: Eq + Hash, V>(
    map: &mut DashMap<P, DashMap<K, ValueWithTip<V>>>,
    height: u64,
) where
    DashMap<P, DashMap<K, ValueWithTip<V>>>: Contents<P, DashMap<K, ValueWithTip<V>>>,
    DashMap<K, ValueWithTip<V>>: Contents<K, ValueWithTip<V>>,

    ensures
        nested_contents(*final(map)) == nested_newer_than(nested_contents(*old(map)), height),
{
    let ghost before = map.contents();
    let keys = map_keys(map);
    let mut i: usize = 0;
    while i < keys.len()
        invariant
            i <= keys.len(),
            concurrent_map::enumerates(keys@, before.dom()),
            forall|p: P| #[trigger]
                map.contents().dom().contains(p) <==> before.dom().contains(p) && (!keys@.take(
                    i as int,
                ).contains(p) || has_newer_than(before[p].contents(), height)),
            forall|p: P| #[trigger]
                map.contents().dom().contains(p) ==> map.contents()[p].contents() == if keys@.take(
                    i as int,
                ).contains(p) {
                    concurrent_map::newer_than(before[p].contents(), height)
                } else {
                    before[p].contents()
                },
        decreases keys.len() - i,
    {
        let ghost current = map.contents();
        let key = keys[i];
        proof {
            assert(keys@.to_set().contains(key));
            assert(before.dom().contains(key));
            assert(!keys@.take(i as int).contains(key));
            assert(current.dom().contains(key));
            let next = keys@.take(i + 1);
            assert forall|p: P|
                next.contains(p) <==> keys@.take(i as int).contains(p) || p == key by {
                if keys@.take(i as int).contains(p) {
                    let j = choose|j: int| 0 <= j < i && keys@.take(i as int)[j] == p;
                    assert(next[j] == p);
                }
                assert(next[i as int] == key);
                if next.contains(p) && p != key {
                    let j = choose|j: int| 0 <= j < i + 1 && next[j] == p;
                    assert(keys@.take(i as int)[j] == p);
                }
            }
        }
        if let Some(mut inner) = map_remove(map, &key) {
            map_retain_newer(&mut inner, height);
            let left = map_len(&inner);
            proof {
                let kept = inner.contents();
                if left == 0 {
                    assert(kept.dom() =~= Set::empty());
                    if has_newer_than(before[key].contents(), height) {
                        let k = choose|k: K| #[trigger]
                            before[key].contents().dom().contains(k)
                                && before[key].contents()[k].block_number > height;
                        assert(kept.dom().contains(k));
                    }
                } else {
                    let k = kept.dom().choose();
                    assert(kept.dom().contains(k));
                    assert(before[key].contents().dom().contains(k));
                }
            }
            if left > 0 {
                map_insert(map, key, inner);
            }
        }
        i += 1;
    }
    proof {
        assert(keys@.take(keys.len() as int) =~= keys@);
        assert forall|p: P| before.dom().contains(p) implies keys@.contains(p) by {
            assert(keys@.to_set().contains(p));
        }
        assert(nested_contents(*map) =~= nested_newer_than(nested_contents(*old(map)), height));
    }
}

/// How many entries the maps in `map` have together.
pub open spec fn nested_len<P, K, V>(map: Map<P, Map<K, V>>) -> nat
    decreases map.dom().len(),
{
    if map.dom().finite() && map.dom().len() > 0 {
        let p = map.dom().choose();
        map[p].dom().len() + nested_len(map.remove(p))
    } else {
        0
    }
}

/// How many accounts, slots and trie nodes the cache holds.
pub open spec fn total_entries(s: CacheState) -> nat {
    s.accounts.dom().len() + nested_len(s.storage) + s.account_trie.dom().len() + nested_len(
        s.storage_trie,
    )
}

/// Any map in `map` can be counted first.
pub(super) proof fn lemma_nested_len_remove<P, K, V>(map: Map<P, Map<K, V>>, p: P)
    requires
        map.dom().finite(),
        map.dom().contains(p),
    ensures
        nested_len(map) == map[p].dom().len() + nested_len(map.remove(p)),
    decreases map.dom().len(),
{
    let q = map.dom().choose();
    assert(map.dom().len() > 0);
    if p != q {
        assert(map.remove(q).dom().contains(p));
        lemma_nested_len_remove(map.remove(q), p);
        lemma_nested_len_remove(map.remove(p), q);
        assert(map.remove(p).remove(q) =~= map.remove(q).remove(p));
    }
}

/// Counting depends only on how many entries each map has.
proof fn lemma_nested_len_same_keys<P, K, V, W>(a: Map<P, Map<K, V>>, b: Map<P, Map<K, W>>)
    requires
        a.dom() == b.dom(),
        forall|p: P| #[trigger] a.dom().contains(p) ==> a[p].dom() == b[p].dom(),
    ensures
        nested_len(a) == nested_len(b),
    decreases a.dom().len(),
{
    if a.dom().finite() && a.dom().len() > 0 {
        let p = a.dom().choose();
        assert(a.dom().contains(p));
        assert(a.remove(p).dom() =~= b.remove(p).dom());
        lemma_nested_len_same_keys(a.remove(p), b.remove(p));
    }
}

/// Counts the entries of the inner maps.
fn nested_count<P: Eq + Hash + Copy, K: Eq + Hash, V>(map: &DashMap<P, DashMap<K, V>>) -> (r: usize)
    where
    DashMap<P, DashMap<K, V>>: Contents<P, DashMap<K, V>>,
    DashMap<K, V>: Contents<K, V>,

    requires
        nested_len(nested_contents(*map)) <= usize::MAX,
    ensures
        r == nested_len(nested_contents(*map)),
{
    let keys = map_keys(map);
    let ghost all = nested_contents(*map);
    let mut total: usize = 0;
    let mut i: usize = 0;
    proof {
        assert(all.dom() =~= keys@.to_set());
        assert(all.remove_keys(keys@.take(0).to_set()) =~= all);
    }
    while i < keys.len()
        invariant
            i <= keys.len(),
            all == nested_contents(*map),
            all.dom().finite(),
            concurrent_map::enumerates(keys@, all.dom()),
            nested_len(all) <= usize::MAX,
            total + nested_len(all.remove_keys(keys@.take(i as int).to_set())) == nested_len(all),
        decreases keys.len() - i,
    {
        let key = keys[i];
        let ghost rest = all.remove_keys(keys@.take(i as int).to_set());
        proof {
            assert(keys@.to_set().contains(key));
            assert(!keys@.take(i as int).contains(key));
            assert(rest.dom().contains(key));
            assert(rest.dom().subset_of(all.dom()));
            lemma_nested_len_remove(rest, key);
            let next = keys@.take(i + 1);
            assert(next =~= keys@.take(i as int).push(key));
            assert forall|p: P|
                next.contains(p) <==> keys@.take(i as int).contains(p) || p == key by {
                if keys@.take(i as int).contains(p) {
                    let j = choose|j: int| 0 <= j < i && keys@.take(i as int)[j] == p;
                    assert(next[j] == p);
                }
                assert(next[i as int] == key);
            }
            assert(all.remove_keys(next.to_set()) =~= rest.remove(key));
        }
        if let Some(n) = map_len_within(map, &key) {
            total += n;
        }
        i += 1;
    }
    proof {
        assert(keys@.take(keys.len() as int) =~= keys@);
        assert(all.remove_keys(keys@.to_set()).dom() =~= Set::empty());
    }
    total
}

/// Which contracts are dropped does not depend on how their code is represented.
proof fn lemma_oldest_dropped_view(
    before: Map<B256, ValueWithTip<Vec<u8>>>,
    after: Map<B256, ValueWithTip<Vec<u8>>>,
    limit: nat,
)
    requires
        oldest_dropped(before, after, limit),
    ensures
        oldest_dropped(
            before.map_values(|e: ValueWithTip<Vec<u8>>| super::bytes_state(e)),
            after.map_values(|e: ValueWithTip<Vec<u8>>| super::bytes_state(e)),
            limit,
        ),
{
    let b = before.map_values(|e: ValueWithTip<Vec<u8>>| super::bytes_state(e));
    let a = after.map_values(|e: ValueWithTip<Vec<u8>>| super::bytes_state(e));
    assert(b.dom() =~= before.dom());
    assert(a.dom() =~= after.dom());
    assert(a.submap_of(b));
    assert forall|gone: B256, kept: B256|
        #![trigger b.dom().contains(gone), a.dom().contains(kept)]
        b.dom().contains(gone) && !a.dom().contains(gone) && a.dom().contains(
            kept,
        ) implies b[gone].block_number <= a[kept].block_number by {
        assert(before.dom().contains(gone) && after.dom().contains(kept));
    }
}

/// The cache and its counters after contracts were evicted.
pub open spec fn contracts_evicted(
    before: CacheState,
    after: CacheState,
    heights_before: EvictionHeights,
    heights_after: EvictionHeights,
) -> bool {
    let persist_height = persist_height(before);
    if before.contracts.dom().len() > CACHE_CONTRACTS_THRESHOLD {
        let height = eviction_height(persist_height, heights_before.last_contract_eviction_height);
        &&& oldest_dropped(
            concurrent_map::newer_than(before.contracts, height),
            after.contracts,
            CACHE_CONTRACTS_THRESHOLD as nat,
        )
        &&& after == (CacheState { contracts: after.contracts, ..before })
        &&& heights_after == (EvictionHeights {
            last_contract_eviction_height: height,
            ..heights_before
        })
    } else {
        after == before && heights_after == heights_before
    }
}

/// The persisted tip, zero where there is none.
pub open spec fn persist_height(s: CacheState) -> u64 {
    match s.persist_block_number {
        Some(block_number) => block_number,
        None => 0,
    }
}

impl PersistBlockCache {
    /// The persisted tip, zero where there is none.
    fn persist_height(&self) -> (r: u64)
        ensures
            r == persist_height(self@),
    {
        match self.0.persist_block_number {
            Some(block_number) => block_number,
            None => 0,
        }
    }

    /// How many accounts, slots and trie nodes the cache holds.
    pub fn entry_count(&self) -> (r: usize)
        requires
            total_entries(self@) <= usize::MAX,
        ensures
            r == total_entries(self@),
    {
        proof {
            assert(nested_contents(self.0.storage) =~= self@.storage);
            assert(self.0.account_trie.contents().dom() =~= self@.account_trie.dom());
            let tries = nested_contents(self.0.storage_trie);
            assert forall|p: B256| #[trigger] tries.dom().contains(p) implies tries[p].dom()
                == self@.storage_trie[p].dom() by {
                assert(tries[p].dom() =~= self@.storage_trie[p].dom());
            }
            assert(tries.dom() =~= self@.storage_trie.dom());
            lemma_nested_len_same_keys(tries, self@.storage_trie);
        }
        let mut num_items: usize = map_len(&self.0.accounts);
        num_items += nested_count(&self.0.storage);
        num_items += map_len(&self.0.account_trie);
        num_items += nested_count(&self.0.storage_trie);
        num_items
    }

    /// Evicts contracts where there are too many: first those of blocks up to the eviction
    /// height, then the oldest until no more than the threshold are left.
    pub fn evict_contracts(&mut self, heights: &mut EvictionHeights)
        requires
            persist_height(old(self)@) + old(heights).last_contract_eviction_height <= u64::MAX,
        ensures
            contracts_evicted(old(self)@, final(self)@, *old(heights), *final(heights)),
            final(self).counters() == old(self).counters(),
    {
        proof {
            assert(self.0.contracts.contents().dom() =~= self@.contracts.dom());
        }
        if map_len(&self.0.contracts) > CACHE_CONTRACTS_THRESHOLD {
            let persist_height = self.persist_height();
            let height = next_eviction_height(persist_height, heights.last_contract_eviction_height);
            map_retain_newer(&mut self.0.contracts, height);
            let ghost retained = self.0.contracts.contents();
            assert(self@.contracts =~= concurrent_map::newer_than(
                old(self)@.contracts,
                height,
            ));
            drop_oldest(&mut self.0.contracts, CACHE_CONTRACTS_THRESHOLD);
            proof {
                lemma_oldest_dropped_view(
                    retained,
                    self.0.contracts.contents(),
                    CACHE_CONTRACTS_THRESHOLD as nat,
                );
            }
            heights.last_contract_eviction_height = height;
        }
    }

    /// Evicts the accounts, slots and trie nodes of blocks up to the eviction height.
    pub fn evict_state(&mut self, heights: &mut EvictionHeights)
        requires
            persist_height(old(self)@) + old(heights).last_state_eviction_height <= u64::MAX,
        ensures
            ({
                let height = eviction_height(
                    persist_height(old(self)@),
                    old(heights).last_state_eviction_height,
                );
                &&& final(self)@ == evicted_state(old(self)@, height)
                &&& final(self).counters() == (CacheMetricsReporter {
                    eviction_block_number: height,
                    ..old(self).counters()
                })
                &&& *final(heights) == (EvictionHeights {
                    last_state_eviction_height: height,
                    ..*old(heights)
                })
            }),
    {
        let persist_height = self.persist_height();
        let height = next_eviction_height(persist_height, heights.last_state_eviction_height);
        proof {
            assert(nested_contents(self.0.storage) =~= self@.storage);
        }
        map_retain_newer(&mut self.0.accounts, height);
        retain_nested(&mut self.0.storage, height);
        map_retain_newer(&mut self.0.account_trie, height);
        let ghost tries = nested_contents(self.0.storage_trie);
        retain_nested(&mut self.0.storage_trie, height);
        proof {
            assert(nested_contents(self.0.storage) =~= self@.storage);
            assert(self@.account_trie =~= concurrent_map::newer_than(
                old(self)@.account_trie,
                height,
            ));
            let old_tries = old(self)@.storage_trie;
            assert forall|p: B256| tries.dom().contains(p) implies (has_newer_than(tries[p], height)
                <==> has_newer_than(old_tries[p], height)) by {
                if has_newer_than(tries[p], height) {
                    let k = choose|k: Nibbles| #[trigger]
                        tries[p].dom().contains(k) && tries[p][k].block_number > height;
                    assert(old_tries[p].dom().contains(k));
                }
                if has_newer_than(old_tries[p], height) {
                    let k = choose|k: Nibbles| #[trigger]
                        old_tries[p].dom().contains(k) && old_tries[p][k].block_number > height;
                    assert(tries[p].dom().contains(k));
                }
            }
            let now = nested_contents(self.0.storage_trie);
            assert forall|p: B256| self@.storage_trie.dom().contains(p) <==> nested_newer_than(
                old_tries,
                height,
            ).dom().contains(p) by {
                assert(self@.storage_trie.dom().contains(p) <==> now.dom().contains(p));
                assert(old_tries.dom().contains(p) <==> tries.dom().contains(p));
            }
            assert forall|p: B256| #[trigger] self@.storage_trie.dom().contains(p) implies self@.storage_trie[p]
                == nested_newer_than(old_tries, height)[p] by {
                assert(now.dom().contains(p));
                assert(now[p] == concurrent_map::newer_than(tries[p], height));
                assert(self@.storage_trie[p] =~= concurrent_map::newer_than(
                    old_tries[p],
                    height,
                ));
            }
            assert(self@.storage_trie =~= nested_newer_than(old_tries, height));
        }
        heights.last_state_eviction_height = height;
        self.0.metrics.eviction_block_number = height;
    }

    /// One round of upkeep: counts the items, reports, and evicts what is too much.
    pub fn upkeep(&mut self, heights: &mut EvictionHeights, cache_capacity: usize) -> (r: CacheReport)
        requires
            total_entries(old(self)@) <= usize::MAX,
            old(self).counters().reportable(),
            persist_height(old(self)@) + old(heights).last_contract_eviction_height <= u64::MAX,
            persist_height(old(self)@) + old(heights).last_state_eviction_height <= u64::MAX,
        ensures
            r == (CacheReport {
                cache_num_items: total_entries(old(self)@) as u64,
                ..old(self).counters().reported()
            }),
            upkept(
                old(self)@,
                old(self).counters(),
                *old(heights),
                cache_capacity,
                final(self)@,
                final(self).counters(),
                *final(heights),
            ),
    {
        let num_items = self.entry_count();
        self.0.metrics.cached_items = num_items as u64;
        let report = self.0.metrics.report();
        let ghost (start, start_heights) = (self@, *heights);
        self.evict_contracts(heights);
        let ghost (middle, middle_heights) = (self@, *heights);
        assert(contracts_evicted(start, middle, start_heights, middle_heights));
        if num_items > cache_capacity {
            self.evict_state(heights);
        }
        report
    }
}

/// The cache, its counters and the heights after one round of upkeep.
pub open spec fn upkept(
    before: CacheState,
    counters_before: CacheMetricsReporter,
    heights_before: EvictionHeights,
    cache_capacity: usize,
    after: CacheState,
    counters_after: CacheMetricsReporter,
    heights_after: EvictionHeights,
) -> bool {
    exists|middle: CacheState, middle_heights: EvictionHeights|
        {
            let counted = CacheMetricsReporter {
                cached_items: total_entries(before) as u64,
                ..counters_before.after_report()
            };
            &&& #[trigger] contracts_evicted(before, middle, heights_before, middle_heights)
            &&& if total_entries(before) > cache_capacity {
                let height = eviction_height(
                    persist_height(before),
                    heights_before.last_state_eviction_height,
                );
                &&& after == evicted_state(middle, height)
                &&& counters_after == (CacheMetricsReporter {
                    eviction_block_number: height,
                    ..counted
                })
                &&& heights_after == (EvictionHeights {
                    last_state_eviction_height: height,
                    ..middle_heights
                })
            } else {
                &&& after == middle
                &&& counters_after == counted
                &&& heights_after == middle_heights
            }
        }
}

} // verus!
