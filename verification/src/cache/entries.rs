//! What the operations do to the cache, entry by entry.
//!
//! The statements here speak of the fields of what goes in and of the entries of the
//! cache before and after, and of nothing in between.

use vstd::prelude::*;

use super::eviction;
use super::eviction::EvictionHeights;
use super::laws;
use super::metrics::{CacheMetricsReporter, HitRecorder};
use super::model;
use super::model::{CacheState, SlotState, TrieState};
use crate::concurrent_map::ValueWithTip;
use crate::primitives::{Address, Nibbles, Node, B256, KECCAK_EMPTY, U256, U256_ZERO};
use crate::state::{Account, BundleAccount, OriginalValuesKnown, StorageSlot};
use crate::trie_updates::TrieUpdatesV2;

verus! {

/// A lookup answers with the value of the entry, if there is one. The slots of an account whose
/// entry says that it does not exist are empty, whatever entries they have.
pub proof fn law_lookups_answer_with_entries(
    s: CacheState,
    address: Address,
    slot: U256,
    code_hash: B256,
    hashed_address: B256,
    path: Nibbles,
)
    ensures
        s.account(address) == if s.accounts.dom().contains(address) {
            Some(s.accounts[address].value)
        } else {
            None
        },
        s.slot(address, slot) == if s.accounts.dom().contains(address)
            && s.accounts[address].value is None {
            Some(None)
        } else if s.storage.dom().contains(address) && s.storage[address].dom().contains(slot) {
            Some(s.storage[address][slot].value)
        } else {
            None
        },
        s.code(code_hash) == if s.contracts.dom().contains(code_hash) {
            Some(s.contracts[code_hash].value)
        } else {
            None
        },
        s.account_node(path) == if s.account_trie.dom().contains(path) {
            Some(s.account_trie[path].value)
        } else {
            None
        },
        s.storage_node(hashed_address, path) == if s.storage_trie.dom().contains(hashed_address)
            && s.storage_trie[hashed_address].dom().contains(path) {
            Some(s.storage_trie[hashed_address][path].value)
        } else {
            None
        },
{
}

/// A new cache knows nothing: no lookup finds anything, no block was merged or persisted, and
/// there is nothing to wait for. Its counters are at zero.
pub proof fn law_new_cache_knows_nothing(
    address: Address,
    slot: U256,
    code_hash: B256,
    hashed_address: B256,
    path: Nibbles,
)
    ensures
        ({
            let s = model::empty_state();
            &&& s.account(address) is None
            &&& s.slot(address, slot) is None
            &&& s.code(code_hash) is None
            &&& s.account_node(path) is None
            &&& s.storage_node(hashed_address, path) is None
            &&& s.merged_block_number is None
            &&& s.persist_block_number is None
            &&& !s.large_gap
        }),
        ({
            let c = CacheMetricsReporter::zero();
            &&& c.block_cache_hit_record.hit_cnt == 0
            &&& c.block_cache_hit_record.not_hit_cnt == 0
            &&& c.trie_cache_hit_record.hit_cnt == 0
            &&& c.trie_cache_hit_record.not_hit_cnt == 0
            &&& c.cached_items == 0
            &&& c.merged_block_number == 0
            &&& c.persist_block_number == 0
            &&& c.eviction_block_number == 0
        }),
{
}

/// Caching what was read adds one entry, tagged with the persisted tip, where there was none,
/// and touches nothing else.
pub proof fn law_read_through_adds_one_entry(
    s: CacheState,
    address: Address,
    account: Account,
    slot: U256,
    value: U256,
    code_hash: B256,
    code: Seq<u8>,
    block_number: u64,
)
    ensures
        ({
            let t = model::filled_account(s, address, account, block_number);
            &&& t.accounts.dom() == s.accounts.dom().insert(address)
            &&& forall|a: Address| #[trigger]
                s.accounts.dom().contains(a) ==> t.accounts[a] == s.accounts[a]
            &&& !s.accounts.dom().contains(address) ==> {
                &&& t.accounts[address].value == Some(account)
                &&& t.accounts[address].block_number == block_number
            }
            &&& t == (CacheState { accounts: t.accounts, ..s })
        }),
        ({
            let t = model::filled_code(s, code_hash, code, block_number);
            &&& t.contracts.dom() == s.contracts.dom().insert(code_hash)
            &&& forall|h: B256| #[trigger]
                s.contracts.dom().contains(h) ==> t.contracts[h] == s.contracts[h]
            &&& !s.contracts.dom().contains(code_hash) ==> {
                &&& t.contracts[code_hash].value == code
                &&& t.contracts[code_hash].block_number == block_number
            }
            &&& t == (CacheState { contracts: t.contracts, ..s })
        }),
        ({
            let t = model::filled_slot(s, address, slot, value, block_number);
            let cached = s.storage.dom().contains(address) && s.storage[address].dom().contains(
                slot,
            );
            &&& t.storage.dom() == s.storage.dom().insert(address)
            &&& forall|a: Address| #[trigger]
                s.storage.dom().contains(a) && a != address ==> t.storage[a] == s.storage[a]
            &&& forall|k: U256| #[trigger]
                t.storage[address].dom().contains(k) <==> k == slot || s.storage.dom().contains(
                    address,
                ) && s.storage[address].dom().contains(k)
            &&& forall|k: U256| #[trigger]
                t.storage[address].dom().contains(k) && s.storage.dom().contains(address)
                    && s.storage[address].dom().contains(k) ==> t.storage[address][k]
                    == s.storage[address][k]
            &&& !cached ==> {
                &&& t.storage[address][slot].value == Some(value)
                &&& t.storage[address][slot].block_number == block_number
            }
            &&& t == (CacheState { storage: t.storage, ..s })
        }),
{
    let t = model::filled_account(s, address, account, block_number);
    assert(t.accounts.dom() =~= s.accounts.dom().insert(address));
    let t = model::filled_code(s, code_hash, code, block_number);
    assert(t.contracts.dom() =~= s.contracts.dom().insert(code_hash));
}

/// A block may be merged first whatever its number is, and then exactly the one after the last.
/// A tip may become the persisted one if it lies after the last and not after the merged block.
pub proof fn law_order_of_blocks(s: CacheState, block_number: u64)
    ensures
        model::merges_next(s, block_number) <==> (s.merged_block_number is None || block_number
            == s.merged_block_number->0 + 1),
        model::persists_next(s, block_number) <==> {
            &&& s.persist_block_number is None || block_number > s.persist_block_number->0
            &&& s.merged_block_number is None || block_number <= s.merged_block_number->0
        },
{
}

/// Moving the persisted tip sets it, and opens or closes the gap where a block was merged. It
/// touches no entry.
pub proof fn law_persisting_sets_tip_and_gap(s: CacheState, block_number: u64, max_gap: u64)
    ensures
        ({
            let t = model::persisted(s, block_number, max_gap);
            &&& t.persist_block_number == Some(block_number)
            &&& s.merged_block_number matches Some(merged) ==> (t.large_gap <==> merged
                - block_number >= max_gap)
            &&& s.merged_block_number is None ==> t.large_gap == s.large_gap
            &&& t.merged_block_number == s.merged_block_number
            &&& t.accounts == s.accounts
            &&& t.storage == s.storage
            &&& t.contracts == s.contracts
            &&& t.account_trie == s.account_trie
            &&& t.storage_trie == s.storage_trie
        }),
{
}

/// An account whose balance, nonce or code hash differs from before the block, or that came into
/// being or ceased to be, is written with the number of the block, and a lookup answers with
/// what the block left of it. So is every account where the original values are not known.
pub proof fn law_merge_writes_changed_accounts(
    s: CacheState,
    block_number: u64,
    known: OriginalValuesKnown,
    state: Seq<(Address, BundleAccount)>,
    contracts: Seq<(B256, Vec<u8>)>,
    i: int,
)
    requires
        forall|j: int, k: int|
            0 <= j < k < state.len() ==> #[trigger] state[j].0 != #[trigger] state[k].0,
        0 <= i < state.len(),
        ({
            let (info, original) = (state[i].1.info, state[i].1.original_info);
            ||| known is No
            ||| info is Some != original is Some
            ||| info is Some && original is Some && {
                ||| info->0.balance != original->0.balance
                ||| info->0.nonce != original->0.nonce
                ||| info->0.code_hash != original->0.code_hash
            }
        }),
    ensures
        ({
            let t = model::merged_block(s, block_number, known, state, contracts);
            let (address, change) = state[i];
            &&& t.accounts.dom().contains(address)
            &&& t.accounts[address].block_number == block_number
            &&& t.account(address) == Some(t.accounts[address].value)
            &&& match (change.info, t.accounts[address].value) {
                (Some(info), Some(account)) => {
                    &&& account.nonce == info.nonce
                    &&& account.balance == info.balance
                    &&& info.code_hash == KECCAK_EMPTY ==> account.bytecode_hash is None
                    &&& info.code_hash != KECCAK_EMPTY ==> account.bytecode_hash == Some(
                        info.code_hash,
                    )
                },
                (None, None) => true,
                _ => false,
            }
        }),
{
    lemma_distinct(state);
    laws::law_account_changes_are_independent(s, block_number, known, state, contracts, i);
}

/// An account with the same balance, nonce and code hash as before the block, or that neither
/// existed before nor exists now, keeps its entry, where the original values are known.
pub proof fn law_merge_skips_unchanged_accounts(
    s: CacheState,
    block_number: u64,
    state: Seq<(Address, BundleAccount)>,
    contracts: Seq<(B256, Vec<u8>)>,
    i: int,
)
    requires
        forall|j: int, k: int|
            0 <= j < k < state.len() ==> #[trigger] state[j].0 != #[trigger] state[k].0,
        0 <= i < state.len(),
        ({
            let (info, original) = (state[i].1.info, state[i].1.original_info);
            ||| info is None && original is None
            ||| info is Some && original is Some && {
                &&& info->0.balance == original->0.balance
                &&& info->0.nonce == original->0.nonce
                &&& info->0.code_hash == original->0.code_hash
            }
        }),
    ensures
        ({
            let t = model::merged_block(
                s,
                block_number,
                OriginalValuesKnown::Yes,
                state,
                contracts,
            );
            let address = state[i].0;
            &&& t.accounts.dom().contains(address) <==> s.accounts.dom().contains(address)
            &&& s.accounts.dom().contains(address) ==> t.accounts[address] == s.accounts[address]
            &&& t.account(address) == s.account(address)
        }),
{
    lemma_distinct(state);
    laws::law_account_changes_are_independent(
        s,
        block_number,
        OriginalValuesKnown::Yes,
        state,
        contracts,
        i,
    );
}

proof fn lemma_distinct<K, V>(changes: Seq<(K, V)>)
    requires
        forall|j: int, k: int|
            0 <= j < k < changes.len() ==> #[trigger] changes[j].0 != #[trigger] changes[k].0,
    ensures
        laws::distinct_keys(changes),
{
    assert forall|i: int, j: int|
        0 <= i < changes.len() && 0 <= j < changes.len() && i != j implies #[trigger] changes[i].0
        != #[trigger] changes[j].0 by {
        if j < i {
            assert(changes[j].0 != changes[i].0);
        }
    }
}

/// What stands outside the accounts of the block, and outside its contracts, stays: entries of
/// other addresses, tries, the persisted tip and the gap. The merged block is the new one.
pub proof fn law_merge_touches_only_its_accounts(
    s: CacheState,
    block_number: u64,
    known: OriginalValuesKnown,
    state: Seq<(Address, BundleAccount)>,
    contracts: Seq<(B256, Vec<u8>)>,
    address: Address,
)
    requires
        forall|i: int| 0 <= i < state.len() ==> #[trigger] state[i].0 != address,
    ensures
        ({
            let t = model::merged_block(s, block_number, known, state, contracts);
            &&& t.accounts.dom().contains(address) <==> s.accounts.dom().contains(address)
            &&& s.accounts.dom().contains(address) ==> t.accounts[address] == s.accounts[address]
            &&& t.storage.dom().contains(address) <==> s.storage.dom().contains(address)
            &&& s.storage.dom().contains(address) ==> t.storage[address] == s.storage[address]
            &&& t.account_trie == s.account_trie
            &&& t.storage_trie == s.storage_trie
            &&& t.persist_block_number == s.persist_block_number
            &&& t.large_gap == s.large_gap
            &&& t.merged_block_number == Some(block_number)
        }),
{
    laws::law_untouched_accounts_stay(s, block_number, known, state, contracts, address);
    lemma_merged_frame(s, block_number, known, state, contracts);
}

proof fn lemma_accounts_frame(
    s: CacheState,
    state: Seq<(Address, BundleAccount)>,
    known: OriginalValuesKnown,
    block_number: u64,
)
    ensures
        ({
            let t = model::apply_accounts(s, state, known, block_number);
            t == (CacheState { accounts: t.accounts, storage: t.storage, ..s })
        }),
    decreases state.len(),
{
    if state.len() > 0 {
        lemma_accounts_frame(s, state.drop_last(), known, block_number);
    }
}

proof fn lemma_merged_frame(
    s: CacheState,
    block_number: u64,
    known: OriginalValuesKnown,
    state: Seq<(Address, BundleAccount)>,
    contracts: Seq<(B256, Vec<u8>)>,
)
    ensures
        ({
            let t = model::merged_block(s, block_number, known, state, contracts);
            &&& t.merged_block_number == Some(block_number)
            &&& t.contracts == model::apply_contracts(s.contracts, contracts, block_number)
        }),
{
    lemma_accounts_frame(
        CacheState {
            merged_block_number: Some(block_number),
            contracts: model::apply_contracts(s.contracts, contracts, block_number),
            ..s
        },
        state,
        known,
        block_number,
    );
}

/// The code of each contract of the block is kept under its hash with the number of the block,
/// but for code that stands under the hash of no code. Other hashes keep their entries.
pub proof fn law_merge_writes_code(
    s: CacheState,
    block_number: u64,
    known: OriginalValuesKnown,
    state: Seq<(Address, BundleAccount)>,
    contracts: Seq<(B256, Vec<u8>)>,
    code_hash: B256,
)
    requires
        forall|j: int, k: int|
            0 <= j < k < contracts.len() ==> #[trigger] contracts[j].0 != #[trigger] contracts[k].0,
    ensures
        ({
            let t = model::merged_block(s, block_number, known, state, contracts);
            &&& forall|i: int|
                0 <= i < contracts.len() && (#[trigger] contracts[i]).0 == code_hash && code_hash
                    != KECCAK_EMPTY ==> {
                    &&& t.contracts.dom().contains(code_hash)
                    &&& t.contracts[code_hash].value == contracts[i].1@
                    &&& t.contracts[code_hash].block_number == block_number
                }
            &&& code_hash == KECCAK_EMPTY || (forall|i: int|
                0 <= i < contracts.len() ==> (#[trigger] contracts[i]).0 != code_hash) ==> {
                &&& t.contracts.dom().contains(code_hash) <==> s.contracts.dom().contains(code_hash)
                &&& s.contracts.dom().contains(code_hash) ==> t.contracts[code_hash]
                    == s.contracts[code_hash]
            }
        }),
{
    lemma_merged_frame(s, block_number, known, state, contracts);
    lemma_distinct(contracts);
    let t = model::merged_block(s, block_number, known, state, contracts);
    assert forall|i: int|
        0 <= i < contracts.len() && (#[trigger] contracts[i]).0 == code_hash && code_hash
            != KECCAK_EMPTY implies {
        &&& t.contracts.dom().contains(code_hash)
        &&& t.contracts[code_hash].value == contracts[i].1@
        &&& t.contracts[code_hash].block_number == block_number
    } by {
        laws::law_code_reads_its_write(s.contracts, contracts, block_number, i);
    }
    if forall|i: int| 0 <= i < contracts.len() ==> (#[trigger] contracts[i]).0 != code_hash {
        laws::law_undeployed_code_stays(s.contracts, contracts, block_number, code_hash);
    } else if code_hash == KECCAK_EMPTY {
        lemma_empty_hash(s.contracts, contracts, block_number);
    }
}

proof fn lemma_empty_hash(
    contracts: Map<B256, ValueWithTip<Seq<u8>>>,
    changes: Seq<(B256, Vec<u8>)>,
    block_number: u64,
)
    ensures
        model::lookup(model::apply_contracts(contracts, changes, block_number), KECCAK_EMPTY)
            == model::lookup(contracts, KECCAK_EMPTY),
    decreases changes.len(),
{
    if changes.len() > 0 {
        lemma_empty_hash(contracts, changes.drop_last(), block_number);
    }
}

/// Whether there is an entry for `slot`.
spec fn has(slots: Option<SlotState>, slot: U256) -> bool {
    slots is Some && slots->0.dom().contains(slot)
}

/// What the touched slots of an account come to at one slot.
proof fn lemma_slots(
    slots: Option<SlotState>,
    changes: Seq<(U256, StorageSlot)>,
    known: OriginalValuesKnown,
    destroyed: bool,
    block_number: u64,
    slot: U256,
)
    requires
        laws::distinct_keys(changes),
    ensures
        ({
            let after = model::apply_slots(slots, changes, known, destroyed, block_number);
            &&& slots is Some ==> after is Some
            &&& slots is None && (forall|j: int|
                0 <= j < changes.len() ==> (#[trigger] changes[j]).1.present_value == U256_ZERO)
                ==> after is None
            &&& (forall|j: int| 0 <= j < changes.len() ==> (#[trigger] changes[j]).0 != slot) ==> {
                &&& has(after, slot) <==> has(slots, slot)
                &&& has(slots, slot) ==> after->0[slot] == slots->0[slot]
            }
            &&& forall|j: int|
                0 <= j < changes.len() && (#[trigger] changes[j]).0 == slot ==> {
                    let change = changes[j].1;
                    let value = change.present_value;
                    let written = {
                        ||| known is No
                        ||| destroyed && value != U256_ZERO
                        ||| !destroyed && change.previous_or_original_value != value
                    };
                    &&& !written ==> {
                        &&& has(after, slot) <==> has(slots, slot)
                        &&& has(slots, slot) ==> after->0[slot] == slots->0[slot]
                    }
                    &&& written && (value != U256_ZERO || slots is Some) ==> has(after, slot)
                    &&& written && has(after, slot) ==> {
                        &&& after->0[slot].block_number == block_number
                        &&& after->0[slot].value == if value == U256_ZERO {
                            None
                        } else {
                            Some(value)
                        }
                    }
                }
        }),
    decreases changes.len(),
{
    if changes.len() > 0 {
        let front = changes.drop_last();
        let last = changes.len() - 1;
        assert forall|j: int, k: int|
            0 <= j < front.len() && 0 <= k < front.len() && j != k implies #[trigger] front[j].0
            != #[trigger] front[k].0 by {
            assert(changes[j].0 != changes[k].0);
        }
        lemma_slots(slots, front, known, destroyed, block_number, slot);
        assert forall|j: int| 0 <= j < front.len() implies (#[trigger] front[j]) == changes[j] by {}
        if changes[last].0 == slot {
            assert forall|j: int| 0 <= j < front.len() implies (#[trigger] front[j]).0 != slot by {
                assert(changes[j].0 != changes[last].0);
            }
        } else {
            assert forall|j: int|
                0 <= j < changes.len() && (#[trigger] changes[j]).0 == slot implies j < last by {}
        }
        if forall|j: int| 0 <= j < changes.len() ==> (#[trigger] changes[j]).0 != slot {
            assert forall|j: int| 0 <= j < front.len() implies (#[trigger] front[j]).0 != slot by {
                assert(changes[j].0 != slot);
            }
        }
        if forall|j: int|
            0 <= j < changes.len() ==> (#[trigger] changes[j]).1.present_value == U256_ZERO {
            assert forall|j: int| 0 <= j < front.len() implies (
            #[trigger] front[j]).1.present_value == U256_ZERO by {
                assert(changes[j].1.present_value == U256_ZERO);
            }
            assert(changes[last].1.present_value == U256_ZERO);
        }
        assert forall|j: int| 0 <= j < changes.len() && j < last && (#[trigger] changes[j]).0
            == slot implies front[j] == changes[j] by {}
    }
}

/// The slots of an account after a block. An account that was destroyed starts without any. A
/// slot is written if its value changed, or is not zero and the account was destroyed, or the
/// original values are not known. It is written with the number of the block: its value, or
/// that it is empty. That it is empty is recorded at least where the account had slots in the
/// cache. What is not written stays.
pub proof fn law_merge_writes_slots(
    s: CacheState,
    block_number: u64,
    known: OriginalValuesKnown,
    state: Seq<(Address, BundleAccount)>,
    contracts: Seq<(B256, Vec<u8>)>,
    i: int,
    slot: U256,
)
    requires
        forall|j: int, k: int|
            0 <= j < k < state.len() ==> #[trigger] state[j].0 != #[trigger] state[k].0,
        0 <= i < state.len(),
        forall|j: int, k: int|
            0 <= j < k < state[i].1.storage@.len() ==> #[trigger] state[i].1.storage@[j].0
                != #[trigger] state[i].1.storage@[k].0,
    ensures
        ({
            let t = model::merged_block(s, block_number, known, state, contracts);
            let address = state[i].0;
            let status = state[i].1.status;
            let changes = state[i].1.storage@;
            let destroyed = status is Destroyed || status is DestroyedChanged
                || status is DestroyedAgain;
            let kept = !destroyed && s.storage.dom().contains(address);
            let had = kept && s.storage[address].dom().contains(slot);
            let has = t.storage.dom().contains(address) && t.storage[address].dom().contains(slot);
            &&& kept ==> t.storage.dom().contains(address)
            &&& !kept && (forall|j: int|
                0 <= j < changes.len() ==> (#[trigger] changes[j]).1.present_value == U256_ZERO)
                ==> !t.storage.dom().contains(address)
            &&& (forall|j: int| 0 <= j < changes.len() ==> (#[trigger] changes[j]).0 != slot) ==> {
                &&& has <==> had
                &&& had ==> t.storage[address][slot] == s.storage[address][slot]
            }
            &&& forall|j: int|
                0 <= j < changes.len() && (#[trigger] changes[j]).0 == slot ==> {
                    let change = changes[j].1;
                    let value = change.present_value;
                    let written = {
                        ||| known is No
                        ||| destroyed && value != U256_ZERO
                        ||| !destroyed && change.previous_or_original_value != value
                    };
                    &&& !written ==> {
                        &&& has <==> had
                        &&& had ==> t.storage[address][slot] == s.storage[address][slot]
                    }
                    &&& written && (value != U256_ZERO || kept) ==> has
                    &&& written && has ==> {
                        &&& t.storage[address][slot].block_number == block_number
                        &&& t.storage[address][slot].value == if value == U256_ZERO {
                            None
                        } else {
                            Some(value)
                        }
                    }
                }
        }),
{
    lemma_distinct(state);
    lemma_distinct(state[i].1.storage@);
    laws::law_account_changes_are_independent(s, block_number, known, state, contracts, i);
    let (address, account) = state[i];
    let destroyed = account.status.destroyed();
    let before = if destroyed {
        None
    } else {
        model::lookup(s.storage, address)
    };
    lemma_slots(before, account.storage@, known, destroyed, block_number, slot);
}

/// What removing and then writing nodes comes to at one path.
proof fn lemma_nodes(
    trie: TrieState,
    removed: Seq<Nibbles>,
    nodes: Seq<(Nibbles, Node)>,
    block_number: u64,
    path: Nibbles,
)
    requires
        forall|j: int, k: int|
            0 <= j < k < nodes.len() ==> #[trigger] nodes[j].0 != #[trigger] nodes[k].0,
    ensures
        ({
            let t = model::write_nodes(model::remove_nodes(trie, removed), nodes, block_number);
            &&& forall|j: int|
                0 <= j < nodes.len() && (#[trigger] nodes[j]).0 == path ==> {
                    &&& t.dom().contains(path)
                    &&& t[path].value == nodes[j].1@
                    &&& t[path].block_number == block_number
                }
            &&& (forall|j: int| 0 <= j < nodes.len() ==> (#[trigger] nodes[j]).0 != path) ==> {
                &&& t.dom().contains(path) <==> trie.dom().contains(path) && !removed.contains(path)
                &&& t.dom().contains(path) ==> t[path] == trie[path]
            }
        }),
{
    lemma_distinct(nodes);
    let kept = model::remove_nodes(trie, removed);
    let t = model::write_nodes(kept, nodes, block_number);
    assert forall|j: int| 0 <= j < nodes.len() && (#[trigger] nodes[j]).0 == path implies {
        &&& t.dom().contains(path)
        &&& t[path].value == nodes[j].1@
        &&& t[path].block_number == block_number
    } by {
        laws::law_node_reads_its_write(kept, nodes, block_number, j);
    }
    if forall|j: int| 0 <= j < nodes.len() ==> (#[trigger] nodes[j]).0 != path {
        laws::law_unwritten_node_stays(kept, nodes, block_number, path);
    }
}

/// After the trie changes of a block, a node of the account trie that the block wrote is there
/// with the number of the block. One that it only removed is gone, and every other one stays.
/// The changes touch the tries only.
pub proof fn law_merge_writes_account_nodes(
    s: CacheState,
    updates: TrieUpdatesV2,
    block_number: u64,
    path: Nibbles,
)
    requires
        forall|j: int, k: int|
            0 <= j < k < updates.account_nodes@.len() ==> #[trigger] updates.account_nodes@[j].0
                != #[trigger] updates.account_nodes@[k].0,
    ensures
        ({
            let t = model::merged_tries(s, updates, block_number);
            let nodes = updates.account_nodes@;
            &&& forall|j: int|
                0 <= j < nodes.len() && (#[trigger] nodes[j]).0 == path ==> {
                    &&& t.account_trie.dom().contains(path)
                    &&& t.account_trie[path].value == nodes[j].1@
                    &&& t.account_trie[path].block_number == block_number
                }
            &&& (forall|j: int| 0 <= j < nodes.len() ==> (#[trigger] nodes[j]).0 != path) ==> {
                &&& t.account_trie.dom().contains(path) <==> s.account_trie.dom().contains(path)
                    && !updates.removed_nodes@.contains(path)
                &&& t.account_trie.dom().contains(path) ==> t.account_trie[path]
                    == s.account_trie[path]
            }
            &&& t.accounts == s.accounts
            &&& t.storage == s.storage
            &&& t.contracts == s.contracts
            &&& t.merged_block_number == s.merged_block_number
            &&& t.persist_block_number == s.persist_block_number
            &&& t.large_gap == s.large_gap
        }),
{
    lemma_nodes(
        s.account_trie,
        updates.removed_nodes@,
        updates.account_nodes@,
        block_number,
        path,
    );
}

/// After the trie changes of a block, a storage trie that the block deleted is gone. In one that
/// it changed, a node that it wrote is there with the number of the block, one that it only
/// removed is gone, and every other one stays. A trie that it does not name stays.
pub proof fn law_merge_writes_storage_nodes(
    s: CacheState,
    updates: TrieUpdatesV2,
    block_number: u64,
    hashed_address: B256,
    path: Nibbles,
)
    requires
        forall|j: int, k: int|
            0 <= j < k < updates.storage_tries@.len() ==> #[trigger] updates.storage_tries@[j].0
                != #[trigger] updates.storage_tries@[k].0,
        forall|i: int, j: int, k: int|
            0 <= i < updates.storage_tries@.len() && 0 <= j < k
                < updates.storage_tries@[i].1.storage_nodes@.len()
                ==> #[trigger] updates.storage_tries@[i].1.storage_nodes@[j].0
                != #[trigger] updates.storage_tries@[i].1.storage_nodes@[k].0,
    ensures
        ({
            let t = model::merged_tries(s, updates, block_number);
            let all = updates.storage_tries@;
            let before = if s.storage_trie.dom().contains(hashed_address) {
                s.storage_trie[hashed_address]
            } else {
                Map::empty()
            };
            let after = t.storage_trie[hashed_address];
            &&& forall|i: int|
                0 <= i < all.len() && (#[trigger] all[i]).0 == hashed_address ==> {
                    let nodes = all[i].1.storage_nodes@;
                    &&& t.storage_trie.dom().contains(hashed_address) <==> !all[i].1.is_deleted
                    &&& !all[i].1.is_deleted ==> {
                        &&& forall|j: int|
                            0 <= j < nodes.len() && (#[trigger] nodes[j]).0 == path ==> {
                                &&& after.dom().contains(path)
                                &&& after[path].value == nodes[j].1@
                                &&& after[path].block_number == block_number
                            }
                        &&& (forall|j: int|
                            0 <= j < nodes.len() ==> (#[trigger] nodes[j]).0 != path) ==> {
                            &&& after.dom().contains(path) <==> before.dom().contains(path)
                                && !all[i].1.removed_nodes@.contains(path)
                            &&& after.dom().contains(path) ==> after[path] == before[path]
                        }
                    }
                }
            &&& (forall|i: int| 0 <= i < all.len() ==> (#[trigger] all[i]).0 != hashed_address) ==> {
                &&& t.storage_trie.dom().contains(hashed_address)
                    <==> s.storage_trie.dom().contains(hashed_address)
                &&& s.storage_trie.dom().contains(hashed_address) ==> after == before
            }
        }),
{
    let all = updates.storage_tries@;
    let t = model::merged_tries(s, updates, block_number);
    let before = if s.storage_trie.dom().contains(hashed_address) {
        s.storage_trie[hashed_address]
    } else {
        Map::empty()
    };
    let after = t.storage_trie[hashed_address];
    lemma_distinct(all);
    laws::law_storage_trie_changes_are_independent(
        s.storage_trie,
        all,
        block_number,
        hashed_address,
    );
    assert forall|i: int| 0 <= i < all.len() && (#[trigger] all[i]).0 == hashed_address implies {
        let nodes = all[i].1.storage_nodes@;
        &&& t.storage_trie.dom().contains(hashed_address) <==> !all[i].1.is_deleted
        &&& !all[i].1.is_deleted ==> {
            &&& forall|j: int|
                0 <= j < nodes.len() && (#[trigger] nodes[j]).0 == path ==> {
                    &&& after.dom().contains(path)
                    &&& after[path].value == nodes[j].1@
                    &&& after[path].block_number == block_number
                }
            &&& (forall|j: int| 0 <= j < nodes.len() ==> (#[trigger] nodes[j]).0 != path) ==> {
                &&& after.dom().contains(path) <==> before.dom().contains(path)
                    && !all[i].1.removed_nodes@.contains(path)
                &&& after.dom().contains(path) ==> after[path] == before[path]
            }
        }
    } by {
        let update = all[i].1;
        let nodes = update.storage_nodes@;
        assert(model::lookup(t.storage_trie, hashed_address) == model::apply_storage_trie(
            model::lookup(s.storage_trie, hashed_address),
            update,
            block_number,
        ));
        assert forall|j: int, k: int| 0 <= j < k < nodes.len() implies #[trigger] nodes[j].0
            != #[trigger] nodes[k].0 by {
            assert(updates.storage_tries@[i].1.storage_nodes@[j].0
                != updates.storage_tries@[i].1.storage_nodes@[k].0);
        }
        assert(model::remove_nodes(Map::empty(), update.removed_nodes@) =~= Map::empty());
        lemma_nodes(before, update.removed_nodes@, nodes, block_number, path);
    }
}

/// The height up to which is evicted. The first time it is the later of half the persisted tip
/// and 512 blocks behind it. Afterwards it lies halfway from the last one to the tip.
pub proof fn law_eviction_height_by_numbers(persist_height: u64, last_height: u64)
    ensures
        ({
            let height = eviction::eviction_height(persist_height, last_height);
            &&& last_height == 0 ==> {
                &&& height >= persist_height / 2
                &&& height + 512 >= persist_height
                &&& height == persist_height / 2 || height + 512 == persist_height
            }
            &&& last_height != 0 && persist_height + last_height <= u64::MAX ==> 2 * height
                <= persist_height + last_height < 2 * height + 2
        }),
{
}

/// State eviction keeps exactly the entries of blocks after the height, each as it was. An
/// account or a trie of which nothing is left has no slots or nodes in the cache any more. It
/// touches neither contracts nor the numbers of blocks.
pub proof fn law_state_eviction_keeps_exactly_newer(s: CacheState, height: u64)
    ensures
        ({
            let t = eviction::evicted_state(s, height);
            &&& forall|a: Address| #[trigger]
                t.accounts.dom().contains(a) <==> s.accounts.dom().contains(a)
                    && s.accounts[a].block_number > height
            &&& forall|a: Address| #[trigger]
                t.accounts.dom().contains(a) ==> t.accounts[a] == s.accounts[a]
            &&& forall|p: Nibbles| #[trigger]
                t.account_trie.dom().contains(p) <==> s.account_trie.dom().contains(p)
                    && s.account_trie[p].block_number > height
            &&& forall|p: Nibbles| #[trigger]
                t.account_trie.dom().contains(p) ==> t.account_trie[p] == s.account_trie[p]
            &&& forall|a: Address| #[trigger]
                t.storage.dom().contains(a) <==> s.storage.dom().contains(a) && exists|k: U256|
                    #[trigger] s.storage[a].dom().contains(k) && s.storage[a][k].block_number
                        > height
            &&& forall|a: Address, k: U256| #[trigger]
                t.storage.dom().contains(a) ==> (#[trigger] t.storage[a].dom().contains(k)
                    <==> s.storage[a].dom().contains(k) && s.storage[a][k].block_number > height)
            &&& forall|a: Address, k: U256| #[trigger]
                t.storage.dom().contains(a) && #[trigger] t.storage[a].dom().contains(k)
                    ==> t.storage[a][k] == s.storage[a][k]
            &&& forall|h: B256| #[trigger]
                t.storage_trie.dom().contains(h) <==> s.storage_trie.dom().contains(h)
                    && exists|p: Nibbles| #[trigger]
                    s.storage_trie[h].dom().contains(p) && s.storage_trie[h][p].block_number
                        > height
            &&& forall|h: B256, p: Nibbles| #[trigger]
                t.storage_trie.dom().contains(h) ==> (#[trigger] t.storage_trie[h].dom().contains(p)
                    <==> s.storage_trie[h].dom().contains(p) && s.storage_trie[h][p].block_number
                    > height)
            &&& forall|h: B256, p: Nibbles| #[trigger]
                t.storage_trie.dom().contains(h) && #[trigger] t.storage_trie[h].dom().contains(p)
                    ==> t.storage_trie[h][p] == s.storage_trie[h][p]
            &&& t.contracts == s.contracts
            &&& t.merged_block_number == s.merged_block_number
            &&& t.persist_block_number == s.persist_block_number
            &&& t.large_gap == s.large_gap
        }),
{
}

/// Up to 2000 contracts are left alone. Of more than that, those of blocks up to the height go,
/// and of the others the oldest, until 2000 are left. Every contract that stays is as it was,
/// and none that went is newer than one that stayed, but for those up to the height. Nothing
/// else of the cache changes.
pub proof fn law_contract_eviction_keeps_newest(
    before: CacheState,
    after: CacheState,
    heights_before: EvictionHeights,
    heights_after: EvictionHeights,
)
    requires
        eviction::contracts_evicted(before, after, heights_before, heights_after),
        before.contracts.dom().finite(),
    ensures
        ({
            let tip: u64 = if before.persist_block_number is Some {
                before.persist_block_number->0
            } else {
                0
            };
            let height = eviction::eviction_height(
                tip,
                heights_before.last_contract_eviction_height,
            );
            let newer = before.contracts.dom().filter(
                |h: B256| before.contracts[h].block_number > height,
            );
            &&& before.contracts.dom().len() <= 2000 ==> after.contracts == before.contracts
                && heights_after == heights_before
            &&& before.contracts.dom().len() > 2000 ==> {
                &&& forall|h: B256| #[trigger]
                    after.contracts.dom().contains(h) ==> {
                        &&& before.contracts.dom().contains(h)
                        &&& after.contracts[h] == before.contracts[h]
                        &&& before.contracts[h].block_number > height
                    }
                &&& after.contracts.dom().len() == if newer.len() <= 2000 {
                    newer.len()
                } else {
                    2000
                }
                &&& forall|gone: B256, kept: B256|
                    #![trigger before.contracts.dom().contains(gone), after.contracts.dom().contains(kept)]
                    before.contracts.dom().contains(gone) && before.contracts[gone].block_number
                        > height && !after.contracts.dom().contains(gone)
                        && after.contracts.dom().contains(kept)
                        ==> before.contracts[gone].block_number
                        <= before.contracts[kept].block_number
                &&& heights_after.last_contract_eviction_height == height
                &&& heights_after.last_state_eviction_height
                    == heights_before.last_state_eviction_height
            }
            &&& after.accounts == before.accounts
            &&& after.storage == before.storage
            &&& after.account_trie == before.account_trie
            &&& after.storage_trie == before.storage_trie
            &&& after.merged_block_number == before.merged_block_number
            &&& after.persist_block_number == before.persist_block_number
            &&& after.large_gap == before.large_gap
        }),
{
    let tip: u64 = if before.persist_block_number is Some {
        before.persist_block_number->0
    } else {
        0
    };
    let height = eviction::eviction_height(tip, heights_before.last_contract_eviction_height);
    let newer = before.contracts.dom().filter(|h: B256| before.contracts[h].block_number > height);
    if before.contracts.dom().len() > 2000 {
        let left = crate::concurrent_map::newer_than(before.contracts, height);
        assert(left.dom() =~= newer);
        assert forall|gone: B256, kept: B256|
            #![trigger before.contracts.dom().contains(gone), after.contracts.dom().contains(kept)]
            before.contracts.dom().contains(gone) && before.contracts[gone].block_number > height
                && !after.contracts.dom().contains(gone) && after.contracts.dom().contains(
                kept,
            ) implies before.contracts[gone].block_number <= before.contracts[kept].block_number by {
            assert(left.dom().contains(gone));
            assert(left.dom().contains(kept));
        }
        assert forall|h: B256| #[trigger] after.contracts.dom().contains(h) implies {
            &&& before.contracts.dom().contains(h)
            &&& after.contracts[h] == before.contracts[h]
            &&& before.contracts[h].block_number > height
        } by {
            assert(left.dom().contains(h));
        }
    }
}

/// A round of upkeep evicts contracts, and then accounts, slots and trie nodes exactly where more
/// of them are cached than the capacity. Afterwards lookups are counted anew, and the number of
/// items before the eviction and the height of the eviction are remembered.
pub proof fn law_upkeep_evicts_where_full(
    before: CacheState,
    counters_before: CacheMetricsReporter,
    heights_before: EvictionHeights,
    cache_capacity: usize,
    after: CacheState,
    counters_after: CacheMetricsReporter,
    heights_after: EvictionHeights,
)
    requires
        eviction::total_entries(before) <= u64::MAX,
        eviction::upkept(
            before,
            counters_before,
            heights_before,
            cache_capacity,
            after,
            counters_after,
            heights_after,
        ),
    ensures
        ({
            let tip: u64 = if before.persist_block_number is Some {
                before.persist_block_number->0
            } else {
                0
            };
            let height = eviction::eviction_height(tip, heights_before.last_state_eviction_height);
            let full = eviction::total_entries(before) > cache_capacity;
            &&& !full ==> {
                &&& after == (CacheState { contracts: after.contracts, ..before })
                &&& counters_after.eviction_block_number == counters_before.eviction_block_number
                &&& heights_after.last_state_eviction_height
                    == heights_before.last_state_eviction_height
            }
            &&& full ==> {
                &&& after == (CacheState {
                    contracts: after.contracts,
                    ..eviction::evicted_state(before, height)
                })
                &&& counters_after.eviction_block_number == height
                &&& heights_after.last_state_eviction_height == height
            }
            &&& eviction::contracts_evicted(
                before,
                CacheState { contracts: after.contracts, ..before },
                heights_before,
                EvictionHeights {
                    last_contract_eviction_height: heights_after.last_contract_eviction_height,
                    ..heights_before
                },
            )
            &&& before.contracts.dom().len() <= 2000 ==> after.contracts == before.contracts
            &&& counters_after.cached_items == eviction::total_entries(before)
            &&& counters_after.merged_block_number == counters_before.merged_block_number
            &&& counters_after.persist_block_number == counters_before.persist_block_number
            &&& counters_after.block_cache_hit_record.hit_cnt == 0
            &&& counters_after.block_cache_hit_record.not_hit_cnt == 0
            &&& counters_after.trie_cache_hit_record.hit_cnt == 0
            &&& counters_after.trie_cache_hit_record.not_hit_cnt == 0
        }),
{
}

/// Each account, each slot and each trie node counts as one entry, and nothing else counts.
pub proof fn law_entries_are_counted_once(
    s: CacheState,
    address: Address,
    account: ValueWithTip<Option<Account>>,
    slots: SlotState,
    path: Nibbles,
    node: ValueWithTip<Seq<u8>>,
    hashed_address: B256,
    trie: TrieState,
)
    requires
        s.accounts.dom().finite(),
        s.storage.dom().finite(),
        s.account_trie.dom().finite(),
        s.storage_trie.dom().finite(),
    ensures
        s.accounts.dom().len() == 0 && s.storage.dom().len() == 0 && s.account_trie.dom().len() == 0
            && s.storage_trie.dom().len() == 0 ==> eviction::total_entries(s) == 0,
        !s.accounts.dom().contains(address) ==> eviction::total_entries(
            (CacheState { accounts: s.accounts.insert(address, account), ..s }),
        ) == eviction::total_entries(s) + 1,
        !s.account_trie.dom().contains(path) ==> eviction::total_entries(
            (CacheState { account_trie: s.account_trie.insert(path, node), ..s }),
        ) == eviction::total_entries(s) + 1,
        !s.storage.dom().contains(address) ==> eviction::total_entries(
            (CacheState { storage: s.storage.insert(address, slots), ..s }),
        ) == eviction::total_entries(s) + slots.dom().len(),
        !s.storage_trie.dom().contains(hashed_address) ==> eviction::total_entries(
            (CacheState { storage_trie: s.storage_trie.insert(hashed_address, trie), ..s }),
        ) == eviction::total_entries(s) + trie.dom().len(),
        forall|t: CacheState|
            t.accounts == s.accounts && t.storage == s.storage && t.account_trie == s.account_trie
                && t.storage_trie == s.storage_trie ==> #[trigger] eviction::total_entries(t)
                == eviction::total_entries(s),
{
    if !s.storage.dom().contains(address) {
        let more = s.storage.insert(address, slots);
        eviction::lemma_nested_len_remove(more, address);
        assert(more.remove(address) =~= s.storage);
    }
    if !s.storage_trie.dom().contains(hashed_address) {
        let more = s.storage_trie.insert(hashed_address, trie);
        eviction::lemma_nested_len_remove(more, hashed_address);
        assert(more.remove(hashed_address) =~= s.storage_trie);
    }
}

/// A lookup counts once, as found or as not found, in the counters of its kind, and no other
/// counter changes. A counter that is full starts again at zero.
pub proof fn law_lookups_count_once(counters: CacheMetricsReporter, record: HitRecorder, found: bool)
    ensures
        ({
            let c = record.counted(found);
            &&& found ==> c.not_hit_cnt == record.not_hit_cnt && c.hit_cnt == (record.hit_cnt + 1)
                % 0x1_0000_0000_0000_0000
            &&& !found ==> c.hit_cnt == record.hit_cnt && c.not_hit_cnt == (record.not_hit_cnt + 1)
                % 0x1_0000_0000_0000_0000
        }),
        ({
            let c = counters.block_lookup(found);
            &&& c.block_cache_hit_record == counters.block_cache_hit_record.counted(found)
            &&& c.trie_cache_hit_record == counters.trie_cache_hit_record
            &&& c.cached_items == counters.cached_items
            &&& c.merged_block_number == counters.merged_block_number
            &&& c.persist_block_number == counters.persist_block_number
            &&& c.eviction_block_number == counters.eviction_block_number
        }),
        ({
            let c = counters.trie_lookup(found);
            &&& c.trie_cache_hit_record == counters.trie_cache_hit_record.counted(found)
            &&& c.block_cache_hit_record == counters.block_cache_hit_record
            &&& c.cached_items == counters.cached_items
            &&& c.merged_block_number == counters.merged_block_number
            &&& c.persist_block_number == counters.persist_block_number
            &&& c.eviction_block_number == counters.eviction_block_number
        }),
{
}

/// The lookups since the last report can be told exactly if those of each kind, found or not, fit
/// into a counter together.
pub proof fn law_reportable_while_lookups_fit(counters: CacheMetricsReporter)
    ensures
        counters.reportable() <==> {
            &&& counters.block_cache_hit_record.hit_cnt
                + counters.block_cache_hit_record.not_hit_cnt <= u64::MAX
            &&& counters.trie_cache_hit_record.hit_cnt + counters.trie_cache_hit_record.not_hit_cnt
                <= u64::MAX
        },
{
}

/// A report has the share of lookups that found something, where there were any, and the numbers
/// of the cache. Afterwards the lookups start anew and the numbers stay.
pub proof fn law_report_tells_the_counters(counters: CacheMetricsReporter)
    requires
        counters.reportable(),
    ensures
        ({
            let report = counters.reported();
            let after = counters.after_report();
            let (block, trie) = (counters.block_cache_hit_record, counters.trie_cache_hit_record);
            &&& block.hit_cnt + block.not_hit_cnt == 0 ==> report.block_cache_hits is None
            &&& block.hit_cnt + block.not_hit_cnt > 0 ==> {
                &&& report.block_cache_hits matches Some(ratio)
                &&& ratio.hits == block.hit_cnt
                &&& ratio.visits == block.hit_cnt + block.not_hit_cnt
            }
            &&& trie.hit_cnt + trie.not_hit_cnt == 0 ==> report.trie_cache_hits is None
            &&& trie.hit_cnt + trie.not_hit_cnt > 0 ==> {
                &&& report.trie_cache_hits matches Some(ratio)
                &&& ratio.hits == trie.hit_cnt
                &&& ratio.visits == trie.hit_cnt + trie.not_hit_cnt
            }
            &&& report.cache_num_items == counters.cached_items
            &&& report.latest_merged_block_number == counters.merged_block_number
            &&& report.latest_persist_block_number == counters.persist_block_number
            &&& report.latest_eviction_block_number == counters.eviction_block_number
            &&& after.block_cache_hit_record.hit_cnt == 0
            &&& after.block_cache_hit_record.not_hit_cnt == 0
            &&& after.trie_cache_hit_record.hit_cnt == 0
            &&& after.trie_cache_hit_record.not_hit_cnt == 0
            &&& after.cached_items == counters.cached_items
            &&& after.merged_block_number == counters.merged_block_number
            &&& after.persist_block_number == counters.persist_block_number
            &&& after.eviction_block_number == counters.eviction_block_number
        }),
{
}

} // verus!
