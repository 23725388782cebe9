use block_pipeline::block_view::{
    value_at, BlockViewProvider, BlockViewStorage, RawBlockViewProvider, StorageEntry,
    BLOCK_HASH_HISTORY,
};
use block_pipeline::cache::eviction::EvictionHeights;
use block_pipeline::cache::PersistBlockCache;
use block_pipeline::primitives::{B256, KECCAK_EMPTY, U256};
use block_pipeline::state::{
    Account, AccountInfo, AccountStatus, BundleAccount, OriginalValuesKnown, StorageSlot,
};

fn id(number: u64) -> B256 {
    alloy_primitives::U256::from(number).to_be_bytes()
}

fn account(nonce: u64) -> Account {
    Account { nonce, balance: [10, 0, 0, 0], bytecode_hash: None }
}

#[test]
fn update_canonical_keeps_oldest_valid_blockhash() {
    assert_eq!(BLOCK_HASH_HISTORY, revm::primitives::BLOCK_HASH_HISTORY);
    let mut storage = BlockViewStorage::new((), ());
    for number in 1..=(BLOCK_HASH_HISTORY + 1) {
        storage.insert_block_id(number, id(number));
    }

    let block_number = BLOCK_HASH_HISTORY + 1;
    let target_block_number = block_number - BLOCK_HASH_HISTORY;

    storage.update_canonical(block_number, id(block_number));

    assert!(storage.get_block_id(target_block_number).is_some());
}

#[test]
fn update_canonical_keeps_the_window_only() {
    let mut storage = BlockViewStorage::new((), ());
    for number in 0..=(2 * BLOCK_HASH_HISTORY) {
        storage.insert_block_id(number, id(number));
    }
    storage.update_canonical(BLOCK_HASH_HISTORY, id(0));
    assert_eq!(storage.get_block_id(0), Some(id(0)));

    let canonical = BLOCK_HASH_HISTORY + 10;
    storage.update_canonical(canonical, id(canonical));
    for number in 0..=(2 * BLOCK_HASH_HISTORY) {
        let expected = if number < 10 { None } else { Some(id(number)) };
        assert_eq!(storage.get_block_id(number), expected);
    }
    storage.update_canonical(10 * BLOCK_HASH_HISTORY, id(0));
    assert_eq!(storage.get_block_id(2 * BLOCK_HASH_HISTORY), None);
}

#[test]
fn state_view_shares_the_cache() {
    let storage = BlockViewStorage::new("client", 7u8);
    assert_eq!(*storage.client(), "client");
    let view = storage.get_state_view("tx");
    assert_eq!(view.tx, "tx");
    assert_eq!(view.cache, Some(7));
}

#[test]
fn accounts_come_from_the_cache_first() {
    let mut cache = PersistBlockCache::new();
    cache.cache_account([1; 20], account(5));
    let view = RawBlockViewProvider::<u8, ()>::new(0, None);
    let never = |_: &u8, _: &[u8; 20]| -> Result<Option<Account>, ()> { panic!("not asked") };
    let info = view.basic_ref(Some(&mut cache), [1; 20], never).unwrap().unwrap();
    assert_eq!(info.nonce, 5);
    assert_eq!(info.balance, [10, 0, 0, 0]);
    assert_eq!(info.code_hash, KECCAK_EMPTY);

    let read = |_: &u8, _: &[u8; 20]| -> Result<Option<Account>, ()> { Ok(Some(account(6))) };
    assert_eq!(view.basic_ref(Some(&mut cache), [2; 20], read).unwrap().unwrap().nonce, 6);
    assert_eq!(view.basic_ref(None, [1; 20], read).unwrap().unwrap().nonce, 6);
    let none = |_: &u8, _: &[u8; 20]| -> Result<Option<Account>, ()> { Ok(None) };
    assert!(view.basic_ref(None, [1; 20], none).unwrap().is_none());
    let fail = |_: &u8, _: &[u8; 20]| -> Result<Option<Account>, u8> { Err(3) };
    assert_eq!(view.basic_ref(None, [1; 20], fail).err(), Some(3));
}

#[test]
fn code_that_was_read_is_cached() {
    let mut cache = PersistBlockCache::new();
    let view = RawBlockViewProvider::<u8, ()>::new(0, None);
    let none = |_: &u8, _: &B256| -> Result<Option<Vec<u8>>, ()> { Ok(None) };
    assert_eq!(view.code_by_hash_ref(Some(&mut cache), [1; 32], none), Ok(vec![]));
    assert_eq!(cache.bytecode_by_hash(&[1; 32]), None);
    let fail = |_: &u8, _: &B256| -> Result<Option<Vec<u8>>, u8> { Err(4) };
    assert_eq!(view.code_by_hash_ref(Some(&mut cache), [1; 32], fail), Err(4));

    let read = |_: &u8, _: &B256| -> Result<Option<Vec<u8>>, ()> { Ok(Some(vec![1, 2])) };
    assert_eq!(view.code_by_hash_ref(Some(&mut cache), [1; 32], read), Ok(vec![1, 2]));
    let never = |_: &u8, _: &B256| -> Result<Option<Vec<u8>>, ()> { panic!("not asked") };
    assert_eq!(view.code_by_hash_ref(Some(&mut cache), [1; 32], never), Ok(vec![1, 2]));
    assert_eq!(view.code_by_hash_ref(None, [1; 32], read), Ok(vec![1, 2]));
}

#[test]
fn slots_come_from_the_cache_first() {
    let mut cache = PersistBlockCache::new();
    cache.cache_storage([1; 20], [5, 0, 0, 0], [6, 0, 0, 0]);
    let view = RawBlockViewProvider::<u8, ()>::new(0, None);
    let never = |_: &u8, _: &[u8; 20], _: &B256| -> Result<Option<StorageEntry>, ()> {
        panic!("not asked")
    };
    let slot: U256 = [5, 0, 0, 0];
    assert_eq!(view.storage_ref(Some(&mut cache), [1; 20], slot, never), Ok([6, 0, 0, 0]));

    // The table answers with the slot itself or one behind it.
    let exact = |_: &u8, _: &[u8; 20], key: &B256| -> Result<Option<StorageEntry>, ()> {
        assert_eq!(key[31], 9);
        assert_eq!(key[..31], [0; 31]);
        Ok(Some(StorageEntry { key: *key, value: [7, 0, 0, 0] }))
    };
    let other: U256 = [9, 0, 0, 0];
    assert_eq!(view.storage_ref(Some(&mut cache), [1; 20], other, exact), Ok([7, 0, 0, 0]));
    let behind = |_: &u8, _: &[u8; 20], _: &B256| -> Result<Option<StorageEntry>, ()> {
        Ok(Some(StorageEntry { key: [1; 32], value: [7, 0, 0, 0] }))
    };
    assert_eq!(view.storage_ref(Some(&mut cache), [1; 20], other, behind), Ok([0; 4]));
    let none = |_: &u8, _: &[u8; 20], _: &B256| -> Result<Option<StorageEntry>, ()> { Ok(None) };
    assert_eq!(view.storage_ref(None, [1; 20], slot, none), Ok([0; 4]));
    let fail = |_: &u8, _: &[u8; 20], _: &B256| -> Result<Option<StorageEntry>, u8> { Err(1) };
    assert_eq!(view.storage_ref(None, [1; 20], slot, fail), Err(1));
}

#[test]
fn slot_key_has_its_most_significant_byte_first() {
    let index: U256 = [0x0807_0605_0403_0201, 0, 0, 0x1100_0000_0000_0000];
    let mut key = [0; 32];
    key[0] = 0x11;
    for i in 0..8 {
        key[24 + i] = 8 - i as u8;
    }
    let entry = StorageEntry { key, value: [3, 0, 0, 0] };
    assert_eq!(value_at(Some(entry), &index), [3, 0, 0, 0]);
    assert_eq!(value_at(Some(entry), &[1, 0, 0, 0]), [0; 4]);
    assert_eq!(value_at(None, &index), [0; 4]);
}

#[test]
fn provider_view_reads_through_the_cache() {
    let mut cache = PersistBlockCache::new();
    let view = BlockViewProvider::<u8, ()>::new(0, None);
    let info = |_: &u8, _: &[u8; 20]| -> Result<Option<AccountInfo>, ()> {
        Ok(Some(account(8).to_info()))
    };
    let found = view.basic_ref(Some(&mut cache), [1; 20], info).unwrap().unwrap();
    assert_eq!(found.nonce, 8);
    cache.cache_account([1; 20], account(9));
    let found = view.basic_ref(Some(&mut cache), [1; 20], info).unwrap().unwrap();
    assert_eq!(found.nonce, 9);

    // Even empty code is cached here.
    let empty = |_: &u8, _: &B256| -> Result<Vec<u8>, u8> { Ok(vec![]) };
    assert_eq!(view.code_by_hash_ref(Some(&mut cache), [1; 32], empty), Ok(vec![]));
    assert_eq!(cache.bytecode_by_hash(&[1; 32]), Some(vec![]));
    let fail = |_: &u8, _: &B256| -> Result<Vec<u8>, u8> { Err(2) };
    assert_eq!(view.code_by_hash_ref(Some(&mut cache), [2; 32], fail), Err(2));
    assert_eq!(cache.bytecode_by_hash(&[2; 32]), None);
    assert_eq!(view.code_by_hash_ref(None, [1; 32], fail), Err(2));

    let slot = |_: &u8, _: &[u8; 20], index: &U256| -> Result<U256, ()> { Ok(*index) };
    let index: U256 = [3, 0, 0, 0];
    assert_eq!(view.storage_ref(Some(&mut cache), [1; 20], index, slot), Ok(index));
    cache.cache_storage([1; 20], index, [4, 0, 0, 0]);
    assert_eq!(view.storage_ref(Some(&mut cache), [1; 20], index, slot), Ok([4, 0, 0, 0]));
}

#[test]
fn canonical_window_has_the_block_and_its_history() {
    let mut storage = BlockViewStorage::new((), ());
    let canonical = 3 * BLOCK_HASH_HISTORY;
    for number in 0..=canonical {
        storage.insert_block_id(number, id(number));
    }
    storage.update_canonical(canonical, id(canonical));
    let kept = (0..=canonical).filter(|n| storage.get_block_id(*n).is_some()).count();
    assert_eq!(kept as u64, BLOCK_HASH_HISTORY + 1);
}

#[test]
fn eviction_is_invisible_to_a_view() {
    let stored = |_: &u8, _: &[u8; 20]| -> Result<Option<Account>, ()> { Ok(Some(account(5))) };
    let slot = |_: &u8, _: &[u8; 20], key: &B256| -> Result<Option<StorageEntry>, ()> {
        Ok(Some(StorageEntry { key: *key, value: [6, 0, 0, 0] }))
    };
    let mut cache = PersistBlockCache::new();
    cache.cache_account([1; 20], account(5));
    cache.cache_storage([1; 20], [1, 0, 0, 0], [6, 0, 0, 0]);
    cache.persist_tip(10, 100);
    let view = RawBlockViewProvider::<u8, ()>::new(0, None);
    for evict in [false, true] {
        if evict {
            cache.upkeep(&mut EvictionHeights::new(), 0);
            assert_eq!(cache.entry_count(), 0);
        }
        let seen = view.basic_ref(Some(&mut cache), [1; 20], stored).unwrap().unwrap();
        assert_eq!(seen.nonce, 5);
        let value = view.storage_ref(Some(&mut cache), [1; 20], [1, 0, 0, 0], slot);
        assert_eq!(value, Ok([6, 0, 0, 0]));
    }
}

#[test]
fn view_shows_what_a_block_left() {
    let mut cache = PersistBlockCache::new();
    let change = BundleAccount {
        info: Some(account(7).to_info()),
        original_info: Some(account(5).to_info()),
        storage: vec![(
            [1, 0, 0, 0],
            StorageSlot { previous_or_original_value: [6, 0, 0, 0], present_value: [8, 0, 0, 0] },
        )],
        status: AccountStatus::Changed,
    };
    cache.write_state_changes(1, OriginalValuesKnown::Yes, &vec![([1; 20], change)], &vec![]);
    let view = RawBlockViewProvider::<u8, ()>::new(0, None);
    let stale = |_: &u8, _: &[u8; 20]| -> Result<Option<Account>, ()> { Ok(Some(account(5))) };
    let seen = view.basic_ref(Some(&mut cache), [1; 20], stale).unwrap().unwrap();
    assert_eq!(seen.nonce, 7);
    let slot = |_: &u8, _: &[u8; 20], key: &B256| -> Result<Option<StorageEntry>, ()> {
        Ok(Some(StorageEntry { key: *key, value: [6, 0, 0, 0] }))
    };
    let value = view.storage_ref(Some(&mut cache), [1; 20], [1, 0, 0, 0], slot);
    assert_eq!(value, Ok([8, 0, 0, 0]));
}

#[test]
fn code_can_be_handed_in_after_the_read() {
    let mut cache = PersistBlockCache::new();
    let raw = RawBlockViewProvider::<u8, ()>::new(0, None);
    assert_eq!(raw.take_code(Some(&mut cache), [1; 32], Ok::<_, u8>(None)), Ok(vec![]));
    assert_eq!(raw.take_code(Some(&mut cache), [1; 32], Err(3u8)), Err(3));
    assert_eq!(cache.bytecode_by_hash(&[1; 32]), None);
    let found = Ok::<_, u8>(Some(vec![1]));
    assert_eq!(raw.take_code(Some(&mut cache), [1; 32], found), Ok(vec![1]));
    assert_eq!(cache.bytecode_by_hash(&[1; 32]), Some(vec![1]));

    let provider = BlockViewProvider::<u8, ()>::new(0, None);
    assert_eq!(provider.take_code(Some(&mut cache), [2; 32], Ok::<_, u8>(vec![])), Ok(vec![]));
    assert_eq!(cache.bytecode_by_hash(&[2; 32]), Some(vec![]));
    assert_eq!(provider.take_code(None, [2; 32], Err::<Vec<u8>, u8>(3)), Err(3));
}
