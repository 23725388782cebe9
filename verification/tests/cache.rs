use block_pipeline::cache::eviction::{
    next_eviction_height, EvictionHeights, CACHE_CONTRACTS_THRESHOLD,
};
use block_pipeline::cache::metrics::{HitRatio, HitRecorder};
use block_pipeline::cache::wait::{WaitAction, WaitEvent};
use block_pipeline::cache::PersistBlockCache;
use block_pipeline::primitives::{Bytecode, Nibbles, B256, KECCAK_EMPTY, U256};
use block_pipeline::state::{
    Account, AccountInfo, AccountStatus, BundleAccount, OriginalValuesKnown, StorageSlot,
};
use block_pipeline::trie_updates::{StorageTrieUpdatesV2, TrieUpdatesV2};

const A: [u8; 20] = [1; 20];
const B: [u8; 20] = [2; 20];

fn word(n: u64) -> U256 {
    [n, 0, 0, 0]
}

fn account(nonce: u64) -> Account {
    Account { nonce, balance: word(10), bytecode_hash: Some([3; 32]) }
}

fn info(nonce: u64) -> AccountInfo {
    account(nonce).to_info()
}

fn slot(before: u64, now: u64) -> StorageSlot {
    StorageSlot { previous_or_original_value: word(before), present_value: word(now) }
}

fn changed(nonce: u64, storage: Vec<(U256, StorageSlot)>) -> BundleAccount {
    BundleAccount {
        info: Some(info(nonce)),
        original_info: Some(info(nonce + 100)),
        storage,
        status: AccountStatus::Changed,
    }
}

fn destroyed(storage: Vec<(U256, StorageSlot)>) -> BundleAccount {
    BundleAccount {
        info: None,
        original_info: Some(info(1)),
        storage,
        status: AccountStatus::Destroyed,
    }
}

fn path(n: u64) -> Nibbles {
    (word(n), 4)
}

fn code_hash(n: u64) -> B256 {
    let mut hash = [0; 32];
    hash[..8].copy_from_slice(&n.to_be_bytes());
    hash
}

#[test]
fn empty_cache_answers_nothing() {
    let mut cache = PersistBlockCache::new();
    assert_eq!(cache.basic_account(&A), None);
    assert_eq!(cache.storage(&A, &word(1)), None);
    assert_eq!(cache.bytecode_by_hash(&[1; 32]), None);
    assert_eq!(cache.trie_account(&path(1)), None);
    assert_eq!(cache.trie_storage(&[1; 32], &path(1)), None);
    assert_eq!(cache.entry_count(), 0);
}

#[test]
fn default_cache_is_empty() {
    let mut cache = PersistBlockCache::default();
    assert_eq!(cache.basic_account(&A), None);
    assert_eq!(cache.entry_count(), 0);
    assert_eq!(cache.merged_block_number(), None);
    assert_eq!(cache.persist_block_number(), None);
}

#[test]
fn read_through_changes_nothing_else() {
    let mut cache = PersistBlockCache::new();
    cache.cache_account(A, account(1));
    cache.cache_storage(A, word(1), word(10));
    cache.cache_byte_code([1; 32], vec![1]);
    assert_eq!(cache.basic_account(&B), None);
    assert_eq!(cache.storage(&A, &word(2)), None);
    assert_eq!(cache.storage(&B, &word(1)), None);
    assert_eq!(cache.bytecode_by_hash(&[2; 32]), None);
    assert_eq!(cache.trie_account(&path(1)), None);
}

#[test]
fn touched_slot_that_did_not_change_stays() {
    let mut cache = PersistBlockCache::new();
    cache.cache_storage(A, word(1), word(10));
    let state = vec![(A, changed(1, vec![(word(1), slot(11, 11))]))];
    cache.write_state_changes(1, OriginalValuesKnown::Yes, &state, &vec![]);
    assert_eq!(cache.storage(&A, &word(1)), Some(Some(word(10))));
}

#[test]
fn slot_set_to_zero_has_no_value() {
    for status in [AccountStatus::Changed, AccountStatus::DestroyedChanged] {
        for known in [OriginalValuesKnown::Yes, OriginalValuesKnown::No] {
            let mut cache = PersistBlockCache::new();
            cache.cache_storage(A, word(1), word(10));
            let mut change = changed(1, vec![(word(2), slot(0, 3)), (word(1), slot(10, 0))]);
            change.status = status;
            cache.write_state_changes(1, known, &vec![(A, change)], &vec![]);
            assert_eq!(cache.storage(&A, &word(1)).flatten(), None);
            assert_eq!(cache.storage(&A, &word(2)), Some(Some(word(3))));
        }
    }
}

#[test]
fn unpersisted_state_survives_every_round_of_upkeep() {
    let mut cache = PersistBlockCache::new();
    let mut heights = EvictionHeights::new();
    for number in 1..=200u64 {
        let mut address = [0; 20];
        address[0] = number as u8;
        let state = vec![(address, changed(number, vec![(word(1), slot(0, number))]))];
        cache.write_state_changes(number, OriginalValuesKnown::Yes, &state, &vec![]);
        if number % 20 == 0 {
            cache.persist_tip(number - 10, 1000);
            cache.upkeep(&mut heights, 0);
            assert!(heights.last_state_eviction_height <= number - 10);
            for unpersisted in number - 9..=number {
                address[0] = unpersisted as u8;
                assert!(cache.basic_account(&address).is_some());
                assert!(cache.storage(&address, &word(1)).is_some());
            }
        }
    }
}

#[test]
fn read_through_never_overwrites() {
    let mut cache = PersistBlockCache::new();
    cache.cache_account(A, account(1));
    cache.cache_account(A, account(2));
    assert_eq!(cache.basic_account(&A), Some(Some(account(1))));

    cache.cache_storage(A, word(1), word(10));
    cache.cache_storage(A, word(1), word(11));
    cache.cache_storage(A, word(2), word(12));
    assert_eq!(cache.storage(&A, &word(1)), Some(Some(word(10))));
    assert_eq!(cache.storage(&A, &word(2)), Some(Some(word(12))));
    assert_eq!(cache.storage(&B, &word(1)), None);

    cache.cache_byte_code([1; 32], vec![1]);
    cache.cache_byte_code([1; 32], vec![2]);
    assert_eq!(cache.bytecode_by_hash(&[1; 32]), Some(vec![1]));
    assert_eq!(cache.entry_count(), 3);
}

#[test]
fn block_changes_are_read_back() {
    let mut cache = PersistBlockCache::new();
    cache.cache_account(A, account(1));
    cache.cache_account(B, account(1));
    let state = vec![(A, changed(7, vec![(word(1), slot(0, 5)), (word(2), slot(6, 6))]))];
    let contracts: Vec<(B256, Bytecode)> = vec![([9; 32], vec![1, 2]), (KECCAK_EMPTY, vec![3])];
    cache.write_state_changes(1, OriginalValuesKnown::Yes, &state, &contracts);
    assert_eq!(cache.basic_account(&A), Some(Some(account(7))));
    assert_eq!(cache.basic_account(&B), Some(Some(account(1))));
    assert_eq!(cache.storage(&A, &word(1)), Some(Some(word(5))));
    // It did not change, so it was not written.
    assert_eq!(cache.storage(&A, &word(2)), None);
    assert_eq!(cache.bytecode_by_hash(&[9; 32]), Some(vec![1, 2]));
    assert_eq!(cache.bytecode_by_hash(&KECCAK_EMPTY), None);
}

#[test]
fn unchanged_info_is_written_only_if_original_values_are_unknown() {
    let unchanged = || BundleAccount {
        info: Some(info(5)),
        original_info: Some(info(5)),
        storage: vec![(word(1), slot(4, 4))],
        status: AccountStatus::Loaded,
    };
    let mut cache = PersistBlockCache::new();
    cache.write_state_changes(1, OriginalValuesKnown::Yes, &vec![(A, unchanged())], &vec![]);
    assert_eq!(cache.basic_account(&A), None);
    assert_eq!(cache.storage(&A, &word(1)), None);
    cache.write_state_changes(2, OriginalValuesKnown::No, &vec![(A, unchanged())], &vec![]);
    assert_eq!(cache.basic_account(&A), Some(Some(account(5))));
    assert_eq!(cache.storage(&A, &word(1)), Some(Some(word(4))));
}

#[test]
fn account_without_code_has_no_code_hash() {
    let no_code = AccountInfo { balance: word(1), nonce: 2, code_hash: KECCAK_EMPTY, code: None };
    let change = BundleAccount {
        info: Some(no_code),
        original_info: None,
        storage: vec![],
        status: AccountStatus::InMemoryChange,
    };
    let mut cache = PersistBlockCache::new();
    cache.write_state_changes(1, OriginalValuesKnown::Yes, &vec![(A, change)], &vec![]);
    let expected = Account { nonce: 2, balance: word(1), bytecode_hash: None };
    assert_eq!(cache.basic_account(&A), Some(Some(expected)));
    assert_eq!(expected.to_info().code_hash, KECCAK_EMPTY);
}

#[test]
fn destroyed_account_loses_its_slots() {
    let mut cache = PersistBlockCache::new();
    cache.cache_storage(A, word(1), word(10));
    let mut recreated = changed(3, vec![(word(2), slot(0, 20)), (word(3), slot(9, 0))]);
    recreated.status = AccountStatus::DestroyedChanged;
    cache.write_state_changes(1, OriginalValuesKnown::Yes, &vec![(A, recreated)], &vec![]);
    assert_eq!(cache.storage(&A, &word(1)), None);
    assert_eq!(cache.storage(&A, &word(2)), Some(Some(word(20))));
    assert_eq!(cache.storage(&A, &word(3)), None);

    cache.write_state_changes(2, OriginalValuesKnown::Yes, &vec![(A, destroyed(vec![]))], &vec![]);
    assert_eq!(cache.basic_account(&A), Some(None));
    // All slots of an account that does not exist are known to be empty.
    assert_eq!(cache.storage(&A, &word(2)), Some(None));
    assert_eq!(cache.storage(&A, &word(77)), Some(None));
}

#[test]
fn slot_set_to_zero_is_recorded_where_slots_are_cached() {
    let mut cache = PersistBlockCache::new();
    let zero = || vec![(A, changed(1, vec![(word(1), slot(5, 0))]))];
    cache.write_state_changes(1, OriginalValuesKnown::Yes, &zero(), &vec![]);
    assert_eq!(cache.storage(&A, &word(1)), None);
    cache.cache_storage(A, word(2), word(3));
    cache.write_state_changes(2, OriginalValuesKnown::Yes, &zero(), &vec![]);
    assert_eq!(cache.storage(&A, &word(1)), Some(None));
    assert_eq!(cache.storage(&A, &word(2)), Some(Some(word(3))));
}

#[test]
fn order_of_accounts_does_not_matter() {
    let one = || (A, changed(1, vec![(word(1), slot(0, 5))]));
    let two = || (B, destroyed(vec![]));
    let mut forth = PersistBlockCache::new();
    forth.write_state_changes(1, OriginalValuesKnown::Yes, &vec![one(), two()], &vec![]);
    let mut back = PersistBlockCache::new();
    back.write_state_changes(1, OriginalValuesKnown::Yes, &vec![two(), one()], &vec![]);
    for cache in [&mut forth, &mut back] {
        assert_eq!(cache.basic_account(&A), Some(Some(account(1))));
        assert_eq!(cache.basic_account(&B), Some(None));
        assert_eq!(cache.storage(&A, &word(1)), Some(Some(word(5))));
        assert_eq!(cache.entry_count(), 3);
    }
}

#[test]
fn order_of_slots_does_not_matter_where_slots_are_cached() {
    let mut forth = PersistBlockCache::new();
    let mut back = PersistBlockCache::new();
    forth.cache_storage(A, word(9), word(9));
    back.cache_storage(A, word(9), word(9));
    let storage = vec![(word(1), slot(5, 0)), (word(2), slot(0, 6))];
    let reversed = vec![storage[1], storage[0]];
    forth.write_state_changes(1, OriginalValuesKnown::Yes, &vec![(A, changed(1, storage))], &vec![]);
    back.write_state_changes(1, OriginalValuesKnown::Yes, &vec![(A, changed(1, reversed))], &vec![]);
    for cache in [&mut forth, &mut back] {
        assert_eq!(cache.storage(&A, &word(1)), Some(None));
        assert_eq!(cache.storage(&A, &word(2)), Some(Some(word(6))));
    }
}

#[test]
fn trie_nodes_are_read_back() {
    let mut cache = PersistBlockCache::new();
    let first = TrieUpdatesV2 {
        removed_nodes: vec![],
        account_nodes: vec![(path(1), vec![1]), (path(2), vec![2])],
        storage_tries: vec![(
            [5; 32],
            StorageTrieUpdatesV2 {
                is_deleted: false,
                removed_nodes: vec![],
                storage_nodes: vec![(path(3), vec![3]), (path(4), vec![4])],
            },
        )],
    };
    cache.write_trie_updates(&first, 1);
    assert_eq!(cache.trie_account(&path(1)), Some(vec![1]));
    assert_eq!(cache.trie_storage(&[5; 32], &path(3)), Some(vec![3]));
    assert_eq!(cache.trie_storage(&[5; 32], &path(9)), None);
    assert_eq!(cache.entry_count(), 4);

    // A node that is removed and written again is there.
    let second = TrieUpdatesV2 {
        removed_nodes: vec![path(1), path(2)],
        account_nodes: vec![(path(2), vec![22])],
        storage_tries: vec![(
            [5; 32],
            StorageTrieUpdatesV2 {
                is_deleted: false,
                removed_nodes: vec![path(3), path(4)],
                storage_nodes: vec![(path(6), vec![6])],
            },
        )],
    };
    cache.write_trie_updates(&second, 2);
    assert_eq!(cache.trie_account(&path(1)), None);
    assert_eq!(cache.trie_account(&path(2)), Some(vec![22]));
    assert_eq!(cache.trie_storage(&[5; 32], &path(3)), None);
    assert_eq!(cache.trie_storage(&[5; 32], &path(6)), Some(vec![6]));

    let third = TrieUpdatesV2 {
        removed_nodes: vec![],
        account_nodes: vec![],
        storage_tries: vec![(
            [5; 32],
            StorageTrieUpdatesV2 {
                is_deleted: true,
                removed_nodes: vec![],
                storage_nodes: vec![(path(7), vec![7])],
            },
        )],
    };
    cache.write_trie_updates(&third, 3);
    assert_eq!(cache.trie_storage(&[5; 32], &path(6)), None);
    assert_eq!(cache.trie_storage(&[5; 32], &path(7)), None);
}

#[test]
fn persisted_tip_closes_the_gap() {
    let mut cache = PersistBlockCache::new();
    assert!(!cache.persist_tip(1, 3));
    let wait = |cache: &PersistBlockCache| {
        cache.wait_persist_gap(None, false, WaitEvent::Awake { elapsed_nanos: 0 })
    };
    for number in 10..=16 {
        cache.write_state_changes(number, OriginalValuesKnown::Yes, &vec![], &vec![]);
    }
    assert_eq!(wait(&cache), WaitAction::Return { record_wait: false });
    assert!(cache.persist_tip(13, 3));
    assert_eq!(wait(&cache), WaitAction::Wait);
    assert!(cache.persist_tip(14, 3));
    assert_eq!(wait(&cache), WaitAction::Return { record_wait: false });
    assert_eq!(cache.metrics().persist_block_number, 14);
    assert_eq!(cache.metrics().merged_block_number, 16);
    cache.reset();
    assert!(cache.persist_tip(2, 3));
}

#[test]
fn waiting_is_bounded_by_the_timeout() {
    let mut cache = PersistBlockCache::new();
    cache.write_state_changes(9, OriginalValuesKnown::Yes, &vec![], &vec![]);
    cache.persist_tip(1, 3);
    let awake = |nanos| WaitEvent::Awake { elapsed_nanos: nanos };
    assert_eq!(
        cache.wait_persist_gap(Some(2), false, awake(500_000)),
        WaitAction::WaitAtMost { nanos: 1_500_000 }
    );
    assert_eq!(
        cache.wait_persist_gap(Some(2), true, awake(2_000_000)),
        WaitAction::Return { record_wait: true }
    );
    assert_eq!(
        cache.wait_persist_gap(Some(0), false, awake(0)),
        WaitAction::Return { record_wait: true }
    );
    assert_eq!(
        cache.wait_persist_gap(Some(2), true, WaitEvent::TimedOut),
        WaitAction::Return { record_wait: true }
    );
    assert_eq!(cache.wait_persist_gap(None, true, awake(u128::MAX)), WaitAction::Wait);
    cache.persist_tip(9, 3);
    assert_eq!(
        cache.wait_persist_gap(Some(2), true, awake(1)),
        WaitAction::Return { record_wait: true }
    );
}

#[test]
fn lookups_are_counted() {
    let mut recorder = HitRecorder::new();
    assert_eq!(recorder.report(), None);
    recorder.hit();
    recorder.hit();
    recorder.not_hit();
    assert_eq!(recorder.report(), Some(HitRatio { hits: 2, visits: 3 }));
    assert_eq!(recorder.report(), None);

    let mut cache = PersistBlockCache::new();
    cache.cache_account(A, account(1));
    cache.basic_account(&A);
    cache.basic_account(&B);
    cache.storage(&A, &word(1));
    cache.trie_account(&path(1));
    let mut heights = EvictionHeights::new();
    let report = cache.upkeep(&mut heights, 100);
    assert_eq!(report.block_cache_hits, Some(HitRatio { hits: 1, visits: 3 }));
    assert_eq!(report.trie_cache_hits, Some(HitRatio { hits: 0, visits: 1 }));
    assert_eq!(report.cache_num_items, 1);
    let report = cache.upkeep(&mut heights, 100);
    assert_eq!(report.block_cache_hits, None);
    assert_eq!(report.trie_cache_hits, None);
}

#[test]
fn eviction_height_follows_the_tip() {
    assert_eq!(next_eviction_height(0, 0), 0);
    assert_eq!(next_eviction_height(100, 0), 50);
    assert_eq!(next_eviction_height(1024, 0), 512);
    assert_eq!(next_eviction_height(1030, 0), 518);
    assert_eq!(next_eviction_height(10_000, 0), 9_488);
    assert_eq!(next_eviction_height(100, 50), 75);
    assert_eq!(next_eviction_height(101, 50), 75);
}

#[test]
fn old_state_is_evicted_and_unpersisted_state_stays() {
    let mut cache = PersistBlockCache::new();
    for number in 1..=100u64 {
        let mut address = [0; 20];
        address[0] = number as u8;
        let state = vec![(address, changed(number, vec![(word(1), slot(0, number))]))];
        cache.write_state_changes(number, OriginalValuesKnown::Yes, &state, &vec![]);
        let updates = TrieUpdatesV2 {
            removed_nodes: vec![],
            account_nodes: vec![(path(number), vec![number as u8])],
            storage_tries: vec![(
                code_hash(number),
                StorageTrieUpdatesV2 {
                    is_deleted: false,
                    removed_nodes: vec![],
                    storage_nodes: vec![(path(number), vec![number as u8])],
                },
            )],
        };
        cache.write_trie_updates(&updates, number);
    }
    assert_eq!(cache.entry_count(), 400);
    cache.persist_tip(80, 1000);
    let mut heights = EvictionHeights::new();
    cache.upkeep(&mut heights, 400);
    assert_eq!(cache.entry_count(), 400);
    assert_eq!(heights, EvictionHeights::new());

    let report = cache.upkeep(&mut heights, 399);
    assert_eq!(report.cache_num_items, 400);
    assert_eq!(heights.last_state_eviction_height, 40);
    assert_eq!(heights.last_contract_eviction_height, 0);
    assert_eq!(cache.metrics().eviction_block_number, 40);
    assert_eq!(cache.entry_count(), 240);
    let mut address = [0; 20];
    for number in 1..=100u64 {
        address[0] = number as u8;
        let kept = number > 40;
        assert_eq!(cache.basic_account(&address).is_some(), kept);
        assert_eq!(cache.storage(&address, &word(1)).is_some(), kept);
        assert_eq!(cache.trie_account(&path(number)).is_some(), kept);
        assert_eq!(cache.trie_storage(&code_hash(number), &path(number)).is_some(), kept);
    }
    cache.upkeep(&mut heights, 0);
    assert_eq!(heights.last_state_eviction_height, 60);
}

#[test]
fn contracts_stay_bounded() {
    let mut cache = PersistBlockCache::new();
    let threshold = CACHE_CONTRACTS_THRESHOLD as u64;
    let codes: Vec<(B256, Bytecode)> =
        (1..=threshold).map(|n| (code_hash(n), vec![n as u8])).collect();
    cache.write_state_changes(5, OriginalValuesKnown::Yes, &vec![], &codes);
    let mut heights = EvictionHeights::new();
    cache.upkeep(&mut heights, 0);
    assert!(cache.bytecode_by_hash(&code_hash(1)).is_some());

    let newer: Vec<(B256, Bytecode)> =
        (1..=10).map(|n| (code_hash(threshold + n), vec![n as u8])).collect();
    cache.write_state_changes(6, OriginalValuesKnown::Yes, &vec![], &newer);
    cache.upkeep(&mut heights, usize::MAX);
    let found = (1..=threshold + 10)
        .filter(|n| cache.bytecode_by_hash(&code_hash(*n)).is_some())
        .count();
    assert_eq!(found, CACHE_CONTRACTS_THRESHOLD);
    // None of the newer ones went.
    for n in 1..=10 {
        assert!(cache.bytecode_by_hash(&code_hash(threshold + n)).is_some());
    }
}

#[test]
fn old_contracts_are_evicted_first() {
    let mut cache = PersistBlockCache::new();
    let codes = |from: u64, to: u64| -> Vec<(B256, Bytecode)> {
        (from..to).map(|n| (code_hash(n), vec![])).collect()
    };
    let threshold = CACHE_CONTRACTS_THRESHOLD as u64;
    cache.write_state_changes(1, OriginalValuesKnown::Yes, &vec![], &codes(0, threshold));
    cache.write_state_changes(2, OriginalValuesKnown::Yes, &vec![], &codes(threshold, threshold + 1));
    cache.persist_tip(2, 10);
    let mut heights = EvictionHeights::new();
    cache.upkeep(&mut heights, usize::MAX);
    assert_eq!(heights.last_contract_eviction_height, 1);
    assert!(cache.bytecode_by_hash(&code_hash(0)).is_none());
    assert!(cache.bytecode_by_hash(&code_hash(threshold)).is_some());
}

#[test]
fn read_values_belong_to_the_persisted_tip() {
    let mut cache = PersistBlockCache::new();
    cache.persist_tip(100, 10);
    cache.cache_account(A, account(1));
    let mut heights = EvictionHeights::new();
    cache.upkeep(&mut heights, 0);
    assert_eq!(heights.last_state_eviction_height, 50);
    assert!(cache.basic_account(&A).is_some());
    cache.persist_tip(150, 10);
    cache.upkeep(&mut heights, 0);
    assert_eq!(heights.last_state_eviction_height, 100);
    assert!(cache.basic_account(&A).is_none());
}
