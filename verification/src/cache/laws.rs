//! What holds of the cache as a whole, whatever the operations on it.

use vstd::prelude::*;

use super::eviction;
use super::eviction::{EvictionHeights, CACHE_CONTRACTS_THRESHOLD};
use super::metrics::CacheMetricsReporter;
use super::model;
use super::model::{CacheState, SlotState, TrieState};
use crate::concurrent_map::ValueWithTip;
use crate::primitives::{Address, Nibbles, Node, B256, KECCAK_EMPTY, U256, U256_ZERO};
use crate::state::{Account, BundleAccount, OriginalValuesKnown, StorageSlot};
use crate::trie_updates::{StorageTrieUpdatesV2, TrieUpdatesV2};

verus! {

/// Whether lookups of trie nodes answer the same in `s` and in `t`.
pub open spec fn same_nodes(s: CacheState, t: CacheState) -> bool {
    &&& forall|p: Nibbles| #[trigger] t.account_node(p) == s.account_node(p)
    &&& forall|h: B256, p: Nibbles| #[trigger] t.storage_node(h, p) == s.storage_node(h, p)
}

/// Caching what was read from the database never changes an answer that the cache gives
/// already, and afterwards the cache answers for what was read. For everything else it answers
/// as before, or as before not at all.
pub proof fn law_read_through_keeps_answers(
    s: CacheState,
    address: Address,
    account: Account,
    slot: U256,
    value: U256,
    code_hash: B256,
    code: Seq<u8>,
    block_number: u64,
)
    ensures
        ({
            let t = model::filled_account(s, address, account, block_number);
            &&& forall|a: Address|
                s.account(a) is Some || a != address ==> #[trigger] t.account(a) == s.account(a)
            &&& forall|a: Address, k: U256| #[trigger] t.slot(a, k) == s.slot(a, k)
            &&& forall|h: B256| #[trigger] t.code(h) == s.code(h)
            &&& same_nodes(s, t)
            &&& t.account(address) == if s.account(address) is Some {
                s.account(address)
            } else {
                Some(Some(account))
            }
        }),
        ({
            let t = model::filled_slot(s, address, slot, value, block_number);
            &&& forall|a: Address| #[trigger] t.account(a) == s.account(a)
            &&& forall|a: Address, k: U256|
                s.slot(a, k) is Some || a != address || k != slot ==> #[trigger] t.slot(a, k)
                    == s.slot(a, k)
            &&& forall|h: B256| #[trigger] t.code(h) == s.code(h)
            &&& same_nodes(s, t)
            &&& t.slot(address, slot) == if s.slot(address, slot) is Some {
                s.slot(address, slot)
            } else {
                Some(Some(value))
            }
        }),
        ({
            let t = model::filled_code(s, code_hash, code, block_number);
            &&& forall|a: Address| #[trigger] t.account(a) == s.account(a)
            &&& forall|a: Address, k: U256| #[trigger] t.slot(a, k) == s.slot(a, k)
            &&& forall|h: B256|
                s.code(h) is Some || h != code_hash ==> #[trigger] t.code(h) == s.code(h)
            &&& same_nodes(s, t)
            &&& t.code(code_hash) == if s.code(code_hash) is Some {
                s.code(code_hash)
            } else {
                Some(code)
            }
        }),
{
}

/// Merging a block does nothing to accounts that the block did not touch.
pub proof fn law_untouched_accounts_stay(
    s: CacheState,
    block_number: u64,
    known: OriginalValuesKnown,
    state: Seq<(Address, BundleAccount)>,
    contracts: Seq<(B256, Vec<u8>)>,
    address: Address,
)
    requires
        forall|i: int| 0 <= i < state.len() ==> #[trigger] state[i].0 != address,
    ensures
        ({
            let t = model::merged_block(s, block_number, known, state, contracts);
            &&& model::lookup(t.accounts, address) == model::lookup(s.accounts, address)
            &&& model::lookup(t.storage, address) == model::lookup(s.storage, address)
            &&& t.account_trie == s.account_trie
            &&& t.storage_trie == s.storage_trie
            &&& t.persist_block_number == s.persist_block_number
            &&& t.large_gap == s.large_gap
        }),
{
    let start = CacheState {
        merged_block_number: Some(block_number),
        contracts: model::apply_contracts(s.contracts, contracts, block_number),
        ..s
    };
    lemma_untouched(start, state, known, block_number, address);
    lemma_apply_accounts_frame(start, state, known, block_number);
}

proof fn lemma_untouched(
    s: CacheState,
    state: Seq<(Address, BundleAccount)>,
    known: OriginalValuesKnown,
    block_number: u64,
    address: Address,
)
    requires
        forall|i: int| 0 <= i < state.len() ==> #[trigger] state[i].0 != address,
    ensures
        ({
            let t = model::apply_accounts(s, state, known, block_number);
            &&& model::lookup(t.accounts, address) == model::lookup(s.accounts, address)
            &&& model::lookup(t.storage, address) == model::lookup(s.storage, address)
        }),
    decreases state.len(),
{
    if state.len() > 0 {
        assert forall|i: int| 0 <= i < state.drop_last().len() implies #[trigger] state.drop_last()[i].0
            != address by {
            assert(state[i].0 != address);
        }
        lemma_untouched(s, state.drop_last(), known, block_number, address);
        assert(state[state.len() - 1].0 != address);
    }
}

proof fn lemma_apply_accounts_frame(
    s: CacheState,
    state: Seq<(Address, BundleAccount)>,
    known: OriginalValuesKnown,
    block_number: u64,
)
    ensures
        ({
            let t = model::apply_accounts(s, state, known, block_number);
            t == (CacheState { accounts: t.accounts, storage: t.storage, ..s })
        }),
    decreases state.len(),
{
    if state.len() > 0 {
        lemma_apply_accounts_frame(s, state.drop_last(), known, block_number);
    }
}

/// No two changes are about the same key.
pub open spec fn distinct_keys<K, V>(changes: Seq<(K, V)>) -> bool {
    forall|i: int, j: int|
        0 <= i < changes.len() && 0 <= j < changes.len() && i != j ==> #[trigger] changes[i].0
            != #[trigger] changes[j].0
}

/// The changes to an account decide alone what the cache holds of it afterwards, wherever
/// they stand among the changes to other accounts.
pub proof fn law_account_changes_are_independent(
    s: CacheState,
    block_number: u64,
    known: OriginalValuesKnown,
    state: Seq<(Address, BundleAccount)>,
    contracts: Seq<(B256, Vec<u8>)>,
    i: int,
)
    requires
        distinct_keys(state),
        0 <= i < state.len(),
    ensures
        ({
            let t = model::merged_block(s, block_number, known, state, contracts);
            let (address, account) = state[i];
            &&& model::lookup(t.accounts, address) == if known is No || account.info_changed() {
                Some(model::tip(account.account(), block_number))
            } else {
                model::lookup(s.accounts, address)
            }
            &&& model::lookup(t.storage, address) == model::slots_after(
                s,
                address,
                account,
                known,
                block_number,
            )
        }),
{
    let start = CacheState {
        merged_block_number: Some(block_number),
        contracts: model::apply_contracts(s.contracts, contracts, block_number),
        ..s
    };
    lemma_independent(start, state, known, block_number, i);
}

proof fn lemma_independent(
    s: CacheState,
    state: Seq<(Address, BundleAccount)>,
    known: OriginalValuesKnown,
    block_number: u64,
    i: int,
)
    requires
        distinct_keys(state),
        0 <= i < state.len(),
    ensures
        ({
            let t = model::apply_accounts(s, state, known, block_number);
            let (address, account) = state[i];
            &&& model::lookup(t.accounts, address) == if known is No || account.info_changed() {
                Some(model::tip(account.account(), block_number))
            } else {
                model::lookup(s.accounts, address)
            }
            &&& model::lookup(t.storage, address) == model::slots_after(
                s,
                address,
                account,
                known,
                block_number,
            )
        }),
    decreases state.len(),
{
    let front = state.drop_last();
    let last = state.len() - 1;
    if i < last {
        assert forall|j: int, k: int|
            0 <= j < front.len() && 0 <= k < front.len() && j != k implies #[trigger] front[j].0
            != #[trigger] front[k].0 by {
            assert(state[j].0 != state[k].0);
        }
        lemma_independent(s, front, known, block_number, i);
        assert(state[i].0 != state[last].0);
    } else {
        assert forall|j: int| 0 <= j < front.len() implies #[trigger] front[j].0 != state[last].0 by {
            assert(state[j].0 != state[last].0);
        }
        lemma_untouched(s, front, known, block_number, state[last].0);
    }
}

/// After a block was merged, a lookup answers with the account that the block left behind.
pub proof fn law_account_reads_its_write(
    s: CacheState,
    block_number: u64,
    known: OriginalValuesKnown,
    state: Seq<(Address, BundleAccount)>,
    contracts: Seq<(B256, Vec<u8>)>,
    i: int,
)
    requires
        distinct_keys(state),
        0 <= i < state.len(),
        known is No || state[i].1.info_changed(),
    ensures
        model::merged_block(s, block_number, known, state, contracts).account(state[i].0) == Some(
            state[i].1.account(),
        ),
{
    law_account_changes_are_independent(s, block_number, known, state, contracts, i);
}

/// A slot that the changes do not write keeps its entry, where the account keeps its slots.
proof fn lemma_unwritten_slot(
    slots: Option<SlotState>,
    changes: Seq<(U256, StorageSlot)>,
    known: OriginalValuesKnown,
    destroyed: bool,
    block_number: u64,
    slot: U256,
)
    requires
        forall|i: int|
            0 <= i < changes.len() && (#[trigger] changes[i]).0 == slot ==> !model::slot_is_written(
                known,
                destroyed,
                changes[i].1,
            ),
    ensures
        ({
            let after = model::apply_slots(slots, changes, known, destroyed, block_number);
            &&& slots matches Some(before) ==> {
                &&& after matches Some(a)
                &&& model::lookup(a, slot) == model::lookup(before, slot)
            }
            &&& slots is None ==> (after matches Some(a) ==> !a.dom().contains(slot))
        }),
    decreases changes.len(),
{
    if changes.len() > 0 {
        let front = changes.drop_last();
        assert forall|i: int|
            0 <= i < front.len() && (#[trigger] front[i]).0 == slot implies !model::slot_is_written(
            known,
            destroyed,
            front[i].1,
        ) by {
            assert(changes[i] == front[i]);
        }
        lemma_unwritten_slot(slots, front, known, destroyed, block_number, slot);
        assert(changes.last() == changes[changes.len() - 1]);
    }
}

/// A change with a value other than zero, or with zero where the account has cached slots, is
/// what the slot holds afterwards.
proof fn lemma_written_slot(
    slots: Option<SlotState>,
    changes: Seq<(U256, StorageSlot)>,
    known: OriginalValuesKnown,
    destroyed: bool,
    block_number: u64,
    i: int,
)
    requires
        distinct_keys(changes),
        0 <= i < changes.len(),
        model::slot_is_written(known, destroyed, changes[i].1),
        changes[i].1.present_value != U256_ZERO || slots is Some,
    ensures
        ({
            let after = model::apply_slots(slots, changes, known, destroyed, block_number);
            let value = changes[i].1.present_value;
            &&& after matches Some(a)
            &&& model::lookup(a, changes[i].0) == Some(
                model::tip(
                    if value == U256_ZERO {
                        None
                    } else {
                        Some(value)
                    },
                    block_number,
                ),
            )
        }),
    decreases changes.len(),
{
    let front = changes.drop_last();
    let last = changes.len() - 1;
    if i < last {
        assert forall|j: int, k: int|
            0 <= j < front.len() && 0 <= k < front.len() && j != k implies #[trigger] front[j].0
            != #[trigger] front[k].0 by {
            assert(changes[j].0 != changes[k].0);
        }
        lemma_written_slot(slots, front, known, destroyed, block_number, i);
        assert(changes[i].0 != changes[last].0);
    } else {
        lemma_slots_stay_cached(slots, front, known, destroyed, block_number);
    }
}

/// An account with cached slots keeps having cached slots.
proof fn lemma_slots_stay_cached(
    slots: Option<SlotState>,
    changes: Seq<(U256, StorageSlot)>,
    known: OriginalValuesKnown,
    destroyed: bool,
    block_number: u64,
)
    ensures
        slots is Some ==> model::apply_slots(slots, changes, known, destroyed, block_number) is Some,
    decreases changes.len(),
{
    if changes.len() > 0 {
        lemma_slots_stay_cached(slots, changes.drop_last(), known, destroyed, block_number);
    }
}

/// After a block was merged, a lookup of a slot that the block wrote answers with the value
/// written, unless the account is known not to exist. A value of zero is recorded only where
/// the account had cached slots and was not destroyed.
pub proof fn law_slot_reads_its_write(
    s: CacheState,
    block_number: u64,
    known: OriginalValuesKnown,
    state: Seq<(Address, BundleAccount)>,
    contracts: Seq<(B256, Vec<u8>)>,
    i: int,
    j: int,
)
    requires
        distinct_keys(state),
        0 <= i < state.len(),
        distinct_keys(state[i].1.storage@),
        0 <= j < state[i].1.storage@.len(),
        model::slot_is_written(known, state[i].1.status.destroyed(), state[i].1.storage@[j].1),
        ({
            ||| state[i].1.storage@[j].1.present_value != U256_ZERO
            ||| !state[i].1.status.destroyed() && s.storage.dom().contains(state[i].0)
        }),
    ensures
        ({
            let t = model::merged_block(s, block_number, known, state, contracts);
            let (slot, change) = state[i].1.storage@[j];
            t.slot(state[i].0, slot) == if t.account(state[i].0) == Some(None::<Account>)
                || change.present_value == U256_ZERO {
                Some(None)
            } else {
                Some(Some(change.present_value))
            }
        }),
{
    let (address, account) = state[i];
    let destroyed = account.status.destroyed();
    let before = if destroyed {
        None
    } else {
        model::lookup(s.storage, address)
    };
    law_account_changes_are_independent(s, block_number, known, state, contracts, i);
    lemma_written_slot(before, account.storage@, known, destroyed, block_number, j);
}

/// The slots that a destroyed account had before the block are gone: a lookup of a slot that
/// the block did not touch finds no value.
pub proof fn law_destroyed_account_forgets_its_slots(
    s: CacheState,
    block_number: u64,
    known: OriginalValuesKnown,
    state: Seq<(Address, BundleAccount)>,
    contracts: Seq<(B256, Vec<u8>)>,
    i: int,
    slot: U256,
)
    requires
        distinct_keys(state),
        0 <= i < state.len(),
        state[i].1.status.destroyed(),
        forall|j: int|
            0 <= j < state[i].1.storage@.len() ==> #[trigger] state[i].1.storage@[j].0 != slot,
    ensures
        ({
            let t = model::merged_block(s, block_number, known, state, contracts);
            t.slot(state[i].0, slot) is None || t.slot(state[i].0, slot) == Some(None::<U256>)
        }),
{
    law_account_changes_are_independent(s, block_number, known, state, contracts, i);
    lemma_unwritten_slot(None, state[i].1.storage@, known, true, block_number, slot);
}

/// A slot that was set to zero has no value afterwards.
proof fn lemma_zeroed_slot(
    slots: Option<SlotState>,
    changes: Seq<(U256, StorageSlot)>,
    known: OriginalValuesKnown,
    destroyed: bool,
    block_number: u64,
    i: int,
)
    requires
        distinct_keys(changes),
        0 <= i < changes.len(),
        changes[i].1.present_value == U256_ZERO,
        model::slot_is_written(known, destroyed, changes[i].1) || slots is None,
    ensures
        model::apply_slots(slots, changes, known, destroyed, block_number) matches Some(a) ==> (
        model::lookup(a, changes[i].0) matches Some(entry) ==> entry.value is None),
    decreases changes.len(),
{
    let front = changes.drop_last();
    let last = changes.len() - 1;
    if i < last {
        assert forall|j: int, k: int|
            0 <= j < front.len() && 0 <= k < front.len() && j != k implies #[trigger] front[j].0
            != #[trigger] front[k].0 by {
            assert(changes[j].0 != changes[k].0);
        }
        lemma_zeroed_slot(slots, front, known, destroyed, block_number, i);
        assert(changes[i].0 != changes[last].0);
    } else {
        assert forall|j: int|
            0 <= j < front.len() && (#[trigger] front[j]).0 == changes[i].0
            implies !model::slot_is_written(known, destroyed, front[j].1) by {
            assert(changes[j].0 != changes[last].0);
        }
        lemma_unwritten_slot(slots, front, known, destroyed, block_number, changes[i].0);
    }
}

/// A slot that a block set to zero is never answered with a value: the cache knows that it is
/// empty, or does not answer. The block set it to zero if it changed it to zero, destroyed the
/// account and left it at zero, or left it at zero where the original values are not known.
pub proof fn law_slot_set_to_zero_has_no_value(
    s: CacheState,
    block_number: u64,
    known: OriginalValuesKnown,
    state: Seq<(Address, BundleAccount)>,
    contracts: Seq<(B256, Vec<u8>)>,
    i: int,
    j: int,
)
    requires
        distinct_keys(state),
        0 <= i < state.len(),
        distinct_keys(state[i].1.storage@),
        0 <= j < state[i].1.storage@.len(),
        state[i].1.storage@[j].1.present_value == U256_ZERO,
        ({
            ||| state[i].1.status.destroyed()
            ||| model::slot_is_written(known, false, state[i].1.storage@[j].1)
        }),
    ensures
        ({
            let t = model::merged_block(s, block_number, known, state, contracts);
            let answer = t.slot(state[i].0, state[i].1.storage@[j].0);
            answer is None || answer == Some(None::<U256>)
        }),
{
    let (address, account) = state[i];
    let destroyed = account.status.destroyed();
    let before = if destroyed {
        None
    } else {
        model::lookup(s.storage, address)
    };
    law_account_changes_are_independent(s, block_number, known, state, contracts, i);
    lemma_zeroed_slot(before, account.storage@, known, destroyed, block_number, j);
}

/// The entry that the cache has for a slot, if any.
pub open spec fn slot_entry(s: CacheState, address: Address, slot: U256) -> Option<ValueWithTip<Option<U256>>> {
    match model::lookup(s.storage, address) {
        Some(slots) => model::lookup(slots, slot),
        None => None,
    }
}

/// A slot that the block did not touch keeps its entry, unless the account was destroyed. So
/// does one that the block touched but left as it was, where the original values are known.
pub proof fn law_untouched_slots_stay(
    s: CacheState,
    block_number: u64,
    known: OriginalValuesKnown,
    state: Seq<(Address, BundleAccount)>,
    contracts: Seq<(B256, Vec<u8>)>,
    i: int,
    slot: U256,
)
    requires
        distinct_keys(state),
        0 <= i < state.len(),
        !state[i].1.status.destroyed(),
        forall|j: int|
            0 <= j < state[i].1.storage@.len() && (#[trigger] state[i].1.storage@[j]).0 == slot ==> {
                &&& known is Yes
                &&& state[i].1.storage@[j].1.previous_or_original_value
                    == state[i].1.storage@[j].1.present_value
            },
    ensures
        slot_entry(
            model::merged_block(s, block_number, known, state, contracts),
            state[i].0,
            slot,
        ) == slot_entry(s, state[i].0, slot),
{
    law_account_changes_are_independent(s, block_number, known, state, contracts, i);
    lemma_unwritten_slot(
        model::lookup(s.storage, state[i].0),
        state[i].1.storage@,
        known,
        false,
        block_number,
        slot,
    );
}

/// Two changes to different slots can be applied in either order, where the account has
/// cached slots or neither of the two values is zero.
pub proof fn law_slot_changes_commute(
    slots: Option<SlotState>,
    a: (U256, StorageSlot),
    b: (U256, StorageSlot),
    known: OriginalValuesKnown,
    destroyed: bool,
    block_number: u64,
)
    requires
        a.0 != b.0,
        slots is Some || a.1.present_value != U256_ZERO && b.1.present_value != U256_ZERO,
    ensures
        model::apply_slot(
            model::apply_slot(slots, a, known, destroyed, block_number),
            b,
            known,
            destroyed,
            block_number,
        ) == model::apply_slot(
            model::apply_slot(slots, b, known, destroyed, block_number),
            a,
            known,
            destroyed,
            block_number,
        ),
{
    let ab = model::apply_slot(
        model::apply_slot(slots, a, known, destroyed, block_number),
        b,
        known,
        destroyed,
        block_number,
    );
    let ba = model::apply_slot(
        model::apply_slot(slots, b, known, destroyed, block_number),
        a,
        known,
        destroyed,
        block_number,
    );
    if let (Some(x), Some(y)) = (ab, ba) {
        assert(x =~= y);
    }
}

/// Code that a block deployed is found under its hash, and the hash of no code has no entry
/// that a block wrote.
pub proof fn law_code_reads_its_write(
    contracts: Map<B256, ValueWithTip<Seq<u8>>>,
    changes: Seq<(B256, Vec<u8>)>,
    block_number: u64,
    i: int,
)
    requires
        distinct_keys(changes),
        0 <= i < changes.len(),
    ensures
        model::lookup(model::apply_contracts(contracts, changes, block_number), changes[i].0)
            == if changes[i].0 == KECCAK_EMPTY {
            model::lookup(contracts, KECCAK_EMPTY)
        } else {
            Some(model::tip(changes[i].1@, block_number))
        },
    decreases changes.len(),
{
    let front = changes.drop_last();
    let last = changes.len() - 1;
    if i < last {
        assert forall|j: int, k: int|
            0 <= j < front.len() && 0 <= k < front.len() && j != k implies #[trigger] front[j].0
            != #[trigger] front[k].0 by {
            assert(changes[j].0 != changes[k].0);
        }
        law_code_reads_its_write(contracts, front, block_number, i);
        assert(changes[i].0 != changes[last].0);
    } else {
        lemma_empty_hash_stays(contracts, front, block_number);
    }
}

/// Code that a block did not deploy stays as it was.
pub proof fn law_undeployed_code_stays(
    contracts: Map<B256, ValueWithTip<Seq<u8>>>,
    changes: Seq<(B256, Vec<u8>)>,
    block_number: u64,
    code_hash: B256,
)
    requires
        forall|i: int| 0 <= i < changes.len() ==> #[trigger] changes[i].0 != code_hash,
    ensures
        model::lookup(model::apply_contracts(contracts, changes, block_number), code_hash)
            == model::lookup(contracts, code_hash),
    decreases changes.len(),
{
    if changes.len() > 0 {
        let front = changes.drop_last();
        assert forall|i: int| 0 <= i < front.len() implies #[trigger] front[i].0 != code_hash by {
            assert(changes[i].0 != code_hash);
        }
        law_undeployed_code_stays(contracts, front, block_number, code_hash);
        assert(changes[changes.len() - 1].0 != code_hash);
    }
}

proof fn lemma_empty_hash_stays(
    contracts: Map<B256, ValueWithTip<Seq<u8>>>,
    changes: Seq<(B256, Vec<u8>)>,
    block_number: u64,
)
    ensures
        model::lookup(model::apply_contracts(contracts, changes, block_number), KECCAK_EMPTY)
            == model::lookup(contracts, KECCAK_EMPTY),
    decreases changes.len(),
{
    if changes.len() > 0 {
        lemma_empty_hash_stays(contracts, changes.drop_last(), block_number);
    }
}

/// Blocks are merged one after the other, without gaps and without repetition.
pub proof fn law_blocks_merge_in_sequence(
    s: CacheState,
    block_number: u64,
    known: OriginalValuesKnown,
    state: Seq<(Address, BundleAccount)>,
    contracts: Seq<(B256, Vec<u8>)>,
    next: u64,
)
    ensures
        model::merges_next(model::merged_block(s, block_number, known, state, contracts), next)
            <==> next == block_number + 1,
{
    let start = CacheState {
        merged_block_number: Some(block_number),
        contracts: model::apply_contracts(s.contracts, contracts, block_number),
        ..s
    };
    lemma_apply_accounts_frame(start, state, known, block_number);
}

/// The persisted tip only moves forward, never past the merged block, and the gap is large
/// exactly where the merged block is that far ahead.
pub proof fn law_persisted_tip_moves_forward(s: CacheState, block_number: u64, max_gap: u64, next: u64)
    requires
        model::persists_next(s, block_number),
    ensures
        ({
            let t = model::persisted(s, block_number, max_gap);
            &&& model::persists_next(t, next) ==> next > block_number
            &&& t.merged_block_number matches Some(merged) ==> {
                &&& block_number <= merged
                &&& t.large_gap <==> merged >= block_number + max_gap
            }
        }),
{
}

/// A node that the block wrote is found at its path.
pub proof fn law_node_reads_its_write(
    trie: TrieState,
    nodes: Seq<(Nibbles, Node)>,
    block_number: u64,
    i: int,
)
    requires
        distinct_keys(nodes),
        0 <= i < nodes.len(),
    ensures
        model::lookup(model::write_nodes(trie, nodes, block_number), nodes[i].0) == Some(
            model::tip(nodes[i].1@, block_number),
        ),
    decreases nodes.len(),
{
    let front = nodes.drop_last();
    let last = nodes.len() - 1;
    if i < last {
        assert forall|j: int, k: int|
            0 <= j < front.len() && 0 <= k < front.len() && j != k implies #[trigger] front[j].0
            != #[trigger] front[k].0 by {
            assert(nodes[j].0 != nodes[k].0);
        }
        law_node_reads_its_write(trie, front, block_number, i);
        assert(nodes[i].0 != nodes[last].0);
    }
}

/// A path that the block did not write keeps its node.
pub proof fn law_unwritten_node_stays(trie: TrieState, nodes: Seq<(Nibbles, Node)>, block_number: u64, path: Nibbles)
    requires
        forall|i: int| 0 <= i < nodes.len() ==> #[trigger] nodes[i].0 != path,
    ensures
        model::lookup(model::write_nodes(trie, nodes, block_number), path) == model::lookup(trie, path),
    decreases nodes.len(),
{
    if nodes.len() > 0 {
        let front = nodes.drop_last();
        assert forall|i: int| 0 <= i < front.len() implies #[trigger] front[i].0 != path by {
            assert(nodes[i].0 != path);
        }
        law_unwritten_node_stays(trie, front, block_number, path);
        assert(nodes[nodes.len() - 1].0 != path);
    }
}

/// After the trie changes of a block were merged, a lookup of an account trie node answers
/// with what the block wrote, finds nothing where the block only removed, and answers as
/// before everywhere else.
pub proof fn law_account_trie_reads_its_writes(s: CacheState, updates: TrieUpdatesV2, block_number: u64, path: Nibbles)
    requires
        distinct_keys(updates.account_nodes@),
    ensures
        ({
            let t = model::merged_tries(s, updates, block_number);
            &&& forall|i: int|
                0 <= i < updates.account_nodes@.len() && updates.account_nodes@[i].0 == path
                    ==> t.account_node(path) == Some((#[trigger] updates.account_nodes@[i]).1@)
            &&& (forall|i: int|
                0 <= i < updates.account_nodes@.len() ==> #[trigger] updates.account_nodes@[i].0
                    != path) ==> t.account_node(path) == if updates.removed_nodes@.contains(path) {
                None
            } else {
                s.account_node(path)
            }
        }),
{
    let kept = model::remove_nodes(s.account_trie, updates.removed_nodes@);
    let nodes = updates.account_nodes@;
    assert forall|i: int| 0 <= i < nodes.len() && nodes[i].0 == path implies model::merged_tries(
        s,
        updates,
        block_number,
    ).account_node(path) == Some((#[trigger] nodes[i]).1@) by {
        law_node_reads_its_write(kept, nodes, block_number, i);
    }
    if forall|i: int| 0 <= i < nodes.len() ==> #[trigger] nodes[i].0 != path {
        law_unwritten_node_stays(kept, nodes, block_number, path);
    }
}

/// The changes to a storage trie decide alone what the cache holds of it afterwards, wherever
/// they stand among the changes to other tries; tries that are not named stay.
pub proof fn law_storage_trie_changes_are_independent(
    tries: Map<B256, TrieState>,
    updates: Seq<(B256, StorageTrieUpdatesV2)>,
    block_number: u64,
    hashed_address: B256,
)
    requires
        distinct_keys(updates),
    ensures
        ({
            let after = model::apply_storage_tries(tries, updates, block_number);
            &&& forall|i: int|
                0 <= i < updates.len() && updates[i].0 == hashed_address ==> model::lookup(
                    after,
                    hashed_address,
                ) == model::apply_storage_trie(
                    model::lookup(tries, hashed_address),
                    (#[trigger] updates[i]).1,
                    block_number,
                )
            &&& (forall|i: int| 0 <= i < updates.len() ==> #[trigger] updates[i].0 != hashed_address)
                ==> model::lookup(after, hashed_address) == model::lookup(tries, hashed_address)
        }),
    decreases updates.len(),
{
    if updates.len() > 0 {
        let front = updates.drop_last();
        let last = updates.len() - 1;
        assert forall|j: int, k: int|
            0 <= j < front.len() && 0 <= k < front.len() && j != k implies #[trigger] front[j].0
            != #[trigger] front[k].0 by {
            assert(updates[j].0 != updates[k].0);
        }
        law_storage_trie_changes_are_independent(tries, front, block_number, hashed_address);
        if updates[last].0 == hashed_address {
            assert forall|i: int| 0 <= i < front.len() implies #[trigger] front[i].0
                != hashed_address by {
                assert(updates[i].0 != updates[last].0);
            }
        } else {
            assert forall|i: int|
                0 <= i < updates.len() && updates[i].0 == hashed_address implies model::lookup(
                model::apply_storage_tries(tries, updates, block_number),
                hashed_address,
            ) == model::apply_storage_trie(
                model::lookup(tries, hashed_address),
                (#[trigger] updates[i]).1,
                block_number,
            ) by {
                assert(front[i] == updates[i]);
            }
            if forall|i: int|
                0 <= i < updates.len() ==> #[trigger] updates[i].0 != hashed_address {
                assert forall|i: int| 0 <= i < front.len() implies #[trigger] front[i].0
                    != hashed_address by {
                    assert(updates[i].0 != hashed_address);
                }
            }
        }
    }
}

/// After the trie changes of a block were merged, a lookup of a storage trie node finds nothing
/// in a trie that was deleted; in another trie that changed it answers with what the block
/// wrote, finds nothing where the block only removed, and answers as before elsewhere.
pub proof fn law_storage_trie_reads_its_writes(
    s: CacheState,
    updates: TrieUpdatesV2,
    block_number: u64,
    i: int,
    path: Nibbles,
)
    requires
        distinct_keys(updates.storage_tries@),
        0 <= i < updates.storage_tries@.len(),
        distinct_keys(updates.storage_tries@[i].1.storage_nodes@),
    ensures
        ({
            let t = model::merged_tries(s, updates, block_number);
            let (hashed_address, update) = updates.storage_tries@[i];
            let nodes = update.storage_nodes@;
            if update.is_deleted {
                t.storage_node(hashed_address, path) is None
            } else {
                &&& forall|j: int|
                    0 <= j < nodes.len() && nodes[j].0 == path ==> t.storage_node(
                        hashed_address,
                        path,
                    ) == Some((#[trigger] nodes[j]).1@)
                &&& (forall|j: int| 0 <= j < nodes.len() ==> #[trigger] nodes[j].0 != path)
                    ==> t.storage_node(hashed_address, path) == if update.removed_nodes@.contains(
                    path,
                ) {
                    None
                } else {
                    s.storage_node(hashed_address, path)
                }
            }
        }),
{
    let (hashed_address, update) = updates.storage_tries@[i];
    let nodes = update.storage_nodes@;
    law_storage_trie_changes_are_independent(
        s.storage_trie,
        updates.storage_tries@,
        block_number,
        hashed_address,
    );
    let t = model::merged_tries(s, updates, block_number);
    assert(model::lookup(t.storage_trie, hashed_address) == model::apply_storage_trie(
        model::lookup(s.storage_trie, hashed_address),
        updates.storage_tries@[i].1,
        block_number,
    ));
    if !update.is_deleted {
        let kept = match model::lookup(s.storage_trie, hashed_address) {
            Some(trie) => model::remove_nodes(trie, update.removed_nodes@),
            None => Map::empty(),
        };
        assert forall|j: int| 0 <= j < nodes.len() && nodes[j].0 == path implies t.storage_node(
            hashed_address,
            path,
        ) == Some((#[trigger] nodes[j]).1@) by {
            law_node_reads_its_write(kept, nodes, block_number, j);
        }
        if forall|j: int| 0 <= j < nodes.len() ==> #[trigger] nodes[j].0 != path {
            law_unwritten_node_stays(kept, nodes, block_number, path);
        }
    }
}

/// The eviction height lies between the height of the last eviction and the persisted tip.
pub proof fn law_eviction_height_is_bounded(persist_height: u64, last_height: u64)
    requires
        last_height <= persist_height,
    ensures
        last_height <= eviction::eviction_height(persist_height, last_height) <= persist_height,
{
}

/// Whether `after` has every account, slot and trie node that `before` has of blocks after
/// `tip`.
pub open spec fn keeps_newer(before: CacheState, after: CacheState, tip: u64) -> bool {
    &&& forall|a: Address| #[trigger]
        before.accounts.dom().contains(a) && before.accounts[a].block_number > tip
            ==> model::lookup(after.accounts, a) == model::lookup(before.accounts, a)
    &&& forall|a: Address, k: U256|
        before.storage.dom().contains(a) && #[trigger] before.storage[a].dom().contains(k)
            && before.storage[a][k].block_number > tip ==> after.storage.dom().contains(a)
            && model::lookup(after.storage[a], k) == model::lookup(before.storage[a], k)
    &&& forall|p: Nibbles| #[trigger]
        before.account_trie.dom().contains(p) && before.account_trie[p].block_number > tip
            ==> model::lookup(after.account_trie, p) == model::lookup(
            before.account_trie,
            p,
        )
    &&& forall|h: B256, p: Nibbles|
        before.storage_trie.dom().contains(h) && #[trigger] before.storage_trie[h].dom().contains(
            p,
        ) && before.storage_trie[h][p].block_number > tip
            ==> after.storage_trie.dom().contains(h) && model::lookup(
            after.storage_trie[h],
            p,
        ) == model::lookup(before.storage_trie[h], p)
}

/// State eviction never drops what is not persisted yet, keeps nothing older than the
/// eviction height, and does not change the values of what it keeps.
pub proof fn law_state_eviction_keeps_unpersisted(s: CacheState, last_height: u64)
    requires
        last_height <= eviction::persist_height(s),
    ensures
        ({
            let tip = eviction::persist_height(s);
            let height = eviction::eviction_height(tip, last_height);
            let t = eviction::evicted_state(s, height);
            &&& keeps_newer(s, t, tip)
            &&& t.contracts == s.contracts
        }),
{
    let tip = eviction::persist_height(s);
    law_eviction_height_is_bounded(tip, last_height);
}

/// State eviction only forgets: a lookup of an account, of code or of a trie node answers as
/// before or not at all.
pub proof fn law_state_eviction_only_forgets(s: CacheState, height: u64)
    ensures
        ({
            let t = eviction::evicted_state(s, height);
            &&& forall|a: Address| #[trigger]
                t.account(a) is Some ==> t.account(a) == s.account(a) && s.accounts[a].block_number
                    > height
            &&& forall|h: B256| #[trigger] t.code(h) == s.code(h)
            &&& forall|p: Nibbles| #[trigger]
                t.account_node(p) is Some ==> t.account_node(p) == s.account_node(p)
            &&& forall|h: B256, p: Nibbles| #[trigger]
                t.storage_node(h, p) is Some ==> t.storage_node(h, p) == s.storage_node(h, p)
            &&& forall|a: Address, k: U256|
                s.account(a) != Some(None::<Account>) && #[trigger] t.slot(a, k) is Some
                    ==> t.slot(a, k) == s.slot(a, k)
        }),
{
}

/// A round of upkeep leaves no more contracts than the threshold.
pub proof fn law_upkeep_bounds_contracts(
    before: CacheState,
    counters_before: CacheMetricsReporter,
    heights_before: EvictionHeights,
    cache_capacity: usize,
    after: CacheState,
    counters_after: CacheMetricsReporter,
    heights_after: EvictionHeights,
)
    requires
        eviction::upkept(
            before,
            counters_before,
            heights_before,
            cache_capacity,
            after,
            counters_after,
            heights_after,
        ),
    ensures
        after.contracts.dom().len() <= CACHE_CONTRACTS_THRESHOLD,
{
}

/// A round of upkeep: the cache, its counters and the heights before and after it.
pub struct UpkeepRound {
    pub before: CacheState,
    pub counters_before: CacheMetricsReporter,
    pub heights_before: EvictionHeights,
    pub cache_capacity: usize,
    pub after: CacheState,
    pub counters_after: CacheMetricsReporter,
    pub heights_after: EvictionHeights,
}

/// Whether these are rounds of upkeep one after the other. The first starts before any
/// eviction, each further one from the heights that the one before left, and the persisted tip
/// never moves back in between.
pub open spec fn are_rounds(rounds: Seq<UpkeepRound>) -> bool {
    &&& forall|i: int|
        0 <= i < rounds.len() ==> {
            let round = #[trigger] rounds[i];
            eviction::upkept(
                round.before,
                round.counters_before,
                round.heights_before,
                round.cache_capacity,
                round.after,
                round.counters_after,
                round.heights_after,
            )
        }
    &&& rounds.len() > 0 ==> {
        &&& rounds[0].heights_before.last_contract_eviction_height == 0
        &&& rounds[0].heights_before.last_state_eviction_height == 0
    }
    &&& forall|i: int, j: int|
        0 <= i < rounds.len() && j == i + 1 && j < rounds.len() ==> {
            &&& (#[trigger] rounds[j]).heights_before == (#[trigger] rounds[i]).heights_after
            &&& eviction::persist_height(rounds[j].before) >= eviction::persist_height(
                rounds[i].after,
            )
        }
}

/// However many rounds of upkeep there are, none of them drops an account, a slot or a trie
/// node that is not persisted yet, and the heights of the latest evictions never lie past the
/// persisted tip.
pub proof fn law_all_upkeep_keeps_unpersisted(rounds: Seq<UpkeepRound>, i: int)
    requires
        are_rounds(rounds),
        0 <= i < rounds.len(),
    ensures
        ({
            let tip = eviction::persist_height(rounds[i].before);
            &&& rounds[i].heights_before.last_contract_eviction_height <= tip
            &&& rounds[i].heights_before.last_state_eviction_height <= tip
            &&& rounds[i].heights_after.last_contract_eviction_height <= tip
            &&& rounds[i].heights_after.last_state_eviction_height <= tip
            &&& eviction::persist_height(rounds[i].after) == tip
            &&& keeps_newer(rounds[i].before, rounds[i].after, tip)
        }),
    decreases i,
{
    if i > 0 {
        law_all_upkeep_keeps_unpersisted(rounds, i - 1);
        assert(rounds[i].heights_before == rounds[i - 1].heights_after);
    }
    let round = rounds[i];
    law_upkeep_keeps_unpersisted(
        round.before,
        round.counters_before,
        round.heights_before,
        round.cache_capacity,
        round.after,
        round.counters_after,
        round.heights_after,
    );
}

/// As long as the heights of the latest evictions do not lie past the persisted tip, a round of
/// upkeep never drops an account, a slot or a trie node that is not persisted yet, and the
/// heights still do not lie past the tip afterwards.
pub proof fn law_upkeep_keeps_unpersisted(
    before: CacheState,
    counters_before: CacheMetricsReporter,
    heights_before: EvictionHeights,
    cache_capacity: usize,
    after: CacheState,
    counters_after: CacheMetricsReporter,
    heights_after: EvictionHeights,
)
    requires
        heights_before.last_contract_eviction_height <= eviction::persist_height(before),
        heights_before.last_state_eviction_height <= eviction::persist_height(before),
        eviction::upkept(
            before,
            counters_before,
            heights_before,
            cache_capacity,
            after,
            counters_after,
            heights_after,
        ),
    ensures
        ({
            let tip = eviction::persist_height(before);
            &&& eviction::persist_height(after) == tip
            &&& heights_after.last_contract_eviction_height <= tip
            &&& heights_after.last_state_eviction_height <= tip
            &&& keeps_newer(before, after, tip)
        }),
{
    let tip = eviction::persist_height(before);
    law_eviction_height_is_bounded(tip, heights_before.last_contract_eviction_height);
    law_state_eviction_keeps_unpersisted(before, heights_before.last_state_eviction_height);
    law_eviction_height_is_bounded(tip, heights_before.last_state_eviction_height);
}

/// After contracts were evicted, no more than the threshold are left, whatever blocks they
/// belong to.
pub proof fn law_contracts_stay_bounded(
    before: CacheState,
    after: CacheState,
    heights_before: EvictionHeights,
    heights_after: EvictionHeights,
)
    requires
        eviction::contracts_evicted(before, after, heights_before, heights_after),
    ensures
        after.contracts.dom().len() <= CACHE_CONTRACTS_THRESHOLD,
{
}

} // verus!
