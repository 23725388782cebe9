//! Merging the state and trie changes of a block into the cache.

use vstd::prelude::*;

use super::model::{self, CacheState, SlotState, TrieState};
use super::metrics::CacheMetricsReporter;
use super::PersistBlockCache;
use crate::concurrent_map::{
    map_insert, map_remove, new_slot_map, new_trie_map, Contents, SlotMap, TrieMap, ValueWithTip,
};
use crate::primitives::{
    b256_eq, copy_bytes, u256_is_zero, Address, Bytecode, Nibbles, Node, B256, KECCAK_EMPTY, U256,
};
use crate::state::{BundleAccount, OriginalValuesKnown, StorageSlot};
use crate::trie_updates::{StorageTrieUpdatesV2, TrieUpdatesV2};

verus! {

/// The slots of an account, if it has any.
spec fn slots_of(slots: Option<SlotMap>) -> Option<SlotState> {
    match slots {
        Some(s) => Some(super::slot_state(s)),
        None => None,
    }
}

/// Writes one slot into the slots of an account. An empty value is recorded only where the
/// account has cached slots.
fn write_slot(slots: Option<SlotMap>, slot: U256, value: U256, block_number: u64) -> (r: Option<SlotMap>)
    ensures
        slots_of(r) == model::write_slot(slots_of(slots), slot, value, block_number),
{
    if u256_is_zero(&value) {
        match slots {
            Some(mut s) => {
                map_insert(&mut s, slot, ValueWithTip::new(None, block_number));
                Some(s)
            },
            None => None,
        }
    } else {
        let mut s = match slots {
            Some(s) => s,
            None => new_slot_map(),
        };
        proof {
            if slots is None {
                assert(super::slot_state(s) =~= Map::empty());
            }
        }
        map_insert(&mut s, slot, ValueWithTip::new(Some(value), block_number));
        Some(s)
    }
}

/// Writes the touched slots of an account.
fn write_slots(
    slots: Option<SlotMap>,
    changes: &Vec<(U256, StorageSlot)>,
    known: OriginalValuesKnown,
    was_destroyed: bool,
    block_number: u64,
) -> (r: Option<SlotMap>)
    ensures
        slots_of(r) == model::apply_slots(
            slots_of(slots),
            changes@,
            known,
            was_destroyed,
            block_number,
        ),
{
    let ghost before = slots_of(slots);
    let mut slots = slots;
    let mut i: usize = 0;
    assert(changes@.take(0) =~= Seq::empty());
    while i < changes.len()
        invariant
            i <= changes.len(),
            slots_of(slots) == model::apply_slots(
                before,
                changes@.take(i as int),
                known,
                was_destroyed,
                block_number,
            ),
        decreases changes.len() - i,
    {
        let (slot, slot_value) = changes[i];
        // A destroyed account lost its storage, so only what was written afterwards counts.
        let destroyed_and_not_zero = was_destroyed && !u256_is_zero(&slot_value.present_value);
        let not_destroyed_and_changed = !was_destroyed && slot_value.is_changed();
        proof {
            assert(changes@.take(i + 1).drop_last() =~= changes@.take(i as int));
            assert(changes@.take(i + 1).last() == (slot, slot_value));
        }
        if known.is_not_known() || destroyed_and_not_zero || not_destroyed_and_changed {
            slots = write_slot(slots, slot, slot_value.present_value, block_number);
        }
        i += 1;
    }
    assert(changes@.take(changes.len() as int) =~= changes@);
    slots
}

impl PersistBlockCache {
    /// Writes the code of new contracts.
    fn write_contracts(&mut self, contracts: &Vec<(B256, Bytecode)>, block_number: u64)
        ensures
            final(self)@ == (CacheState {
                contracts: model::apply_contracts(old(self)@.contracts, contracts@, block_number),
                ..old(self)@
            }),
            final(self).counters() == old(self).counters(),
    {
        let mut i: usize = 0;
        assert(contracts@.take(0) =~= Seq::empty());
        while i < contracts.len()
            invariant
                i <= contracts.len(),
                self@ == (CacheState {
                    contracts: model::apply_contracts(
                        old(self)@.contracts,
                        contracts@.take(i as int),
                        block_number,
                    ),
                    ..old(self)@
                }),
                self.counters() == old(self).counters(),
            decreases contracts.len() - i,
        {
            let ghost before = self@;
            let code_hash = contracts[i].0;
            proof {
                assert(contracts@.take(i + 1).drop_last() =~= contracts@.take(i as int));
                assert(contracts@.take(i + 1).last() == contracts@[i as int]);
            }
            if !b256_eq(&code_hash, &KECCAK_EMPTY) {
                let code = copy_bytes(&contracts[i].1);
                map_insert(&mut self.0.contracts, code_hash, ValueWithTip::new(code, block_number));
                assert(self@.contracts =~= before.contracts.insert(
                    code_hash,
                    model::tip(contracts@[i as int].1@, block_number),
                ));
            }
            i += 1;
        }
        assert(contracts@.take(contracts.len() as int) =~= contracts@);
    }

    /// Writes the changes to one account.
    fn write_account(
        &mut self,
        address: Address,
        account: &BundleAccount,
        is_value_known: OriginalValuesKnown,
        block_number: u64,
    )
        ensures
            final(self)@ == model::apply_account(
                old(self)@,
                (address, *account),
                is_value_known,
                block_number,
            ),
            final(self).counters() == old(self).counters(),
    {
        let was_destroyed = account.was_destroyed();
        if is_value_known.is_not_known() || account.is_info_changed() {
            let info = match &account.info {
                Some(info) => Some(info.to_account()),
                None => None,
            };
            map_insert(&mut self.0.accounts, address, ValueWithTip::new(info, block_number));
        }
        let ghost middle = self@;
        let cached = map_remove(&mut self.0.storage, &address);
        let before = if was_destroyed {
            None
        } else {
            cached
        };
        let after = write_slots(before, &account.storage, is_value_known, was_destroyed, block_number);
        let ghost slots = slots_of(after);
        match after {
            Some(s) => {
                map_insert(&mut self.0.storage, address, s);
            },
            None => {},
        }
        assert(self@.storage =~= model::assign(old(self)@.storage, address, slots));
    }

    /// Merges the state changes of `block_number`.
    pub fn write_state_changes(
        &mut self,
        block_number: u64,
        is_value_known: OriginalValuesKnown,
        state: &Vec<(Address, BundleAccount)>,
        contracts: &Vec<(B256, Bytecode)>,
    )
        requires
            model::merges_next(old(self)@, block_number),
        ensures
            final(self)@ == model::merged_block(
                old(self)@,
                block_number,
                is_value_known,
                state@,
                contracts@,
            ),
            final(self).counters() == (CacheMetricsReporter {
                merged_block_number: block_number,
                ..old(self).counters()
            }),
    {
        self.0.metrics.merged_block_number = block_number;
        self.0.merged_block_number = Some(block_number);
        self.write_contracts(contracts, block_number);

        let ghost start = self@;
        let ghost counters = self.counters();
        let mut i: usize = 0;
        assert(state@.take(0) =~= Seq::empty());
        while i < state.len()
            invariant
                i <= state.len(),
                self@ == model::apply_accounts(
                    start,
                    state@.take(i as int),
                    is_value_known,
                    block_number,
                ),
                self.counters() == counters,
            decreases state.len() - i,
        {
            proof {
                assert(state@.take(i + 1).drop_last() =~= state@.take(i as int));
                assert(state@.take(i + 1).last() == state@[i as int]);
            }
            self.write_account(state[i].0, &state[i].1, is_value_known, block_number);
            i += 1;
        }
        assert(state@.take(state.len() as int) =~= state@);
    }
}

/// Removes the nodes at `paths` from a trie.
fn remove_nodes(trie: &mut TrieMap, paths: &Vec<Nibbles>)
    ensures
        super::trie_state(*final(trie)) == model::remove_nodes(super::trie_state(*old(trie)), paths@),
{
    let mut i: usize = 0;
    assert(super::trie_state(*trie) =~= model::remove_nodes(super::trie_state(*old(trie)), paths@.take(0)));
    while i < paths.len()
        invariant
            i <= paths.len(),
            super::trie_state(*trie) == model::remove_nodes(
                super::trie_state(*old(trie)),
                paths@.take(i as int),
            ),
        decreases paths.len() - i,
    {
        let ghost before = super::trie_state(*trie);
        map_remove(trie, &paths[i]);
        proof {
            let path = paths@[i as int];
            let next = paths@.take(i + 1);
            assert(next =~= paths@.take(i as int).push(path));
            assert(next.to_set() =~= paths@.take(i as int).to_set().insert(path)) by {
                assert forall|p: Nibbles| paths@.take(i as int).contains(p) || p == path implies next.contains(p) by {
                    if p == path {
                        assert(next[i as int] == p);
                    } else {
                        let j = paths@.take(i as int).index_of(p);
                        assert(next[j] == p);
                    }
                }
            }
            assert(super::trie_state(*trie) =~= before.remove(path));
            assert(super::trie_state(*trie) =~= model::remove_nodes(super::trie_state(*old(trie)), next));
        }
        i += 1;
    }
    assert(paths@.take(paths.len() as int) =~= paths@);
}

/// Writes nodes into a trie.
fn write_nodes(trie: &mut TrieMap, nodes: &Vec<(Nibbles, Node)>, block_number: u64)
    ensures
        super::trie_state(*final(trie)) == model::write_nodes(super::trie_state(*old(trie)), nodes@, block_number),
{
    let mut i: usize = 0;
    assert(nodes@.take(0) =~= Seq::empty());
    while i < nodes.len()
        invariant
            i <= nodes.len(),
            super::trie_state(*trie) == model::write_nodes(
                super::trie_state(*old(trie)),
                nodes@.take(i as int),
                block_number,
            ),
        decreases nodes.len() - i,
    {
        let ghost before = super::trie_state(*trie);
        let path = nodes[i].0;
        let node = copy_bytes(&nodes[i].1);
        map_insert(trie, path, ValueWithTip::new(node, block_number));
        proof {
            assert(nodes@.take(i + 1).drop_last() =~= nodes@.take(i as int));
            assert(nodes@.take(i + 1).last() == nodes@[i as int]);
            assert(super::trie_state(*trie) =~= before.insert(
                path,
                model::tip(nodes@[i as int].1@, block_number),
            ));
        }
        i += 1;
    }
    assert(nodes@.take(nodes.len() as int) =~= nodes@);
}

impl PersistBlockCache {
    /// Writes the changes to one storage trie.
    fn write_storage_trie(
        &mut self,
        hashed_address: B256,
        update: &StorageTrieUpdatesV2,
        block_number: u64,
    )
        ensures
            final(self)@ == (CacheState {
                storage_trie: model::assign(
                    old(self)@.storage_trie,
                    hashed_address,
                    model::apply_storage_trie(
                        model::lookup(old(self)@.storage_trie, hashed_address),
                        *update,
                        block_number,
                    ),
                ),
                ..old(self)@
            }),
            final(self).counters() == old(self).counters(),
    {
        let cached = map_remove(&mut self.0.storage_trie, &hashed_address);
        let ghost mut after: Option<TrieState> = None;
        if !update.is_deleted {
            let mut trie = match cached {
                Some(mut trie) => {
                    remove_nodes(&mut trie, &update.removed_nodes);
                    trie
                },
                None => new_trie_map(),
            };
            proof {
                if cached is None {
                    assert(super::trie_state(trie) =~= Map::empty());
                }
            }
            write_nodes(&mut trie, &update.storage_nodes, block_number);
            proof {
                after = Some(super::trie_state(trie));
            }
            map_insert(&mut self.0.storage_trie, hashed_address, trie);
        }
        assert(self@.storage_trie =~= model::assign(old(self)@.storage_trie, hashed_address, after));
    }

    /// Merges the trie changes of `block_number`.
    pub fn write_trie_updates(&mut self, input: &TrieUpdatesV2, block_number: u64)
        ensures
            final(self)@ == model::merged_tries(old(self)@, *input, block_number),
            final(self).counters() == old(self).counters(),
    {
        remove_nodes(&mut self.0.account_trie, &input.removed_nodes);
        write_nodes(&mut self.0.account_trie, &input.account_nodes, block_number);

        let ghost start = self@;
        let mut i: usize = 0;
        assert(input.storage_tries@.take(0) =~= Seq::empty());
        while i < input.storage_tries.len()
            invariant
                i <= input.storage_tries.len(),
                self@ == (CacheState {
                    storage_trie: model::apply_storage_tries(
                        start.storage_trie,
                        input.storage_tries@.take(i as int),
                        block_number,
                    ),
                    ..start
                }),
                self.counters() == old(self).counters(),
            decreases input.storage_tries.len() - i,
        {
            proof {
                assert(input.storage_tries@.take(i + 1).drop_last() =~= input.storage_tries@.take(
                    i as int,
                ));
                assert(input.storage_tries@.take(i + 1).last() == input.storage_tries@[i as int]);
            }
            self.write_storage_trie(
                input.storage_tries[i].0,
                &input.storage_tries[i].1,
                block_number,
            );
            i += 1;
        }
        assert(input.storage_tries@.take(input.storage_tries.len() as int) =~= input.storage_tries@);
    }
}

} // verus!
