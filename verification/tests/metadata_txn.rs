use alloy_sol_types::{sol_data, SolType};
use block_pipeline::evm_state::merge_state_changes;
use block_pipeline::execution::{
    AccessListItem, Block, BlockBody, BlockExecutionOutput, BlockExecutionResult, ChainSpec, ExecuteOrderedBlockResult,
    ExecutionResult, GravityConfig, GravityEvent, Header, Log, OrderedBlock, Output, Receipt, Signature,
    SignedAuthorization, SuccessReason, Transaction, TransactionSigned, TxEip1559, TxEip2930, TxEip4844,
    TxEip7702, TxKind, TxType,
};
use block_pipeline::onchain_config::base::SystemAddresses;
use block_pipeline::onchain_config::metadata_txn::{
    construct_metadata_txn, new_system_call_txn, system_tx_env, transact_system_txn,
    SystemTxnResult, NIL_PROPOSER_INDEX,
};
use block_pipeline::primitives::{
    BEACON_NONCE, EMPTY_OMMER_ROOT_HASH, EMPTY_ROOT_HASH, EMPTY_WITHDRAWALS, KECCAK_EMPTY,
};
use revm::state::{Account, EvmState};

fn addresses() -> SystemAddresses {
    SystemAddresses {
        system_caller: [1; 20],
        block: [2; 20],
        consensus_config: [3; 20],
        randomness_config: [4; 20],
        dkg: [5; 20],
        reconfiguration_with_dkg: [6; 20],
        validator_manager: [7; 20],
    }
}

fn log(byte: u8) -> Log {
    Log { address: [byte; 20], topics: vec![], data: vec![byte] }
}

fn success(gas_used: u64, logs: Vec<Log>) -> ExecutionResult {
    ExecutionResult::Success {
        reason: SuccessReason::Return,
        gas_used,
        gas_refunded: 0,
        logs,
        output: Output::Call(vec![]),
    }
}

fn system_txn(gas_used: u64) -> SystemTxnResult {
    SystemTxnResult {
        result: success(gas_used, vec![log(9)]),
        txn: new_system_call_txn([2; 20], 77, 1, vec![]),
    }
}

fn access_list() -> Vec<AccessListItem> {
    vec![AccessListItem { address: [21; 20], storage_keys: vec![[22; 32], [23; 32]] }]
}

fn signed(transaction: Transaction) -> TransactionSigned {
    TransactionSigned {
        transaction,
        signature: Signature { r: [1, 0, 0, 0], s: [2, 0, 0, 0], y_parity: true },
    }
}

fn user_txn(tag: u8) -> TransactionSigned {
    signed(Transaction::Eip1559(TxEip1559 {
        chain_id: 11,
        nonce: 12,
        gas_limit: 13,
        max_fee_per_gas: 14,
        max_priority_fee_per_gas: 15,
        to: TxKind::Create,
        value: [16, 0, 0, 0],
        access_list: access_list(),
        input: vec![tag],
    }))
}

/// A block of user transactions that used this much gas each.
fn block(gas: &[u64]) -> ExecuteOrderedBlockResult<u8> {
    let mut receipts = vec![];
    let mut total = 0;
    for g in gas {
        total += g;
        receipts.push(Receipt {
            tx_type: TxType::Eip1559,
            success: true,
            cumulative_gas_used: total,
            logs: vec![],
        });
    }
    ExecuteOrderedBlockResult {
        block: Block {
            header: Header { gas_used: total, ..Default::default() },
            body: BlockBody {
                transactions: (0..gas.len()).map(|i| user_txn(i as u8)).collect(),
                ommers: vec![],
                withdrawals: None,
            },
        },
        senders: (0..gas.len()).map(|i| [100 + i as u8; 20]).collect(),
        execution_output: BlockExecutionOutput {
            result: BlockExecutionResult { receipts, requests: vec![], gas_used: total },
            state: Default::default(),
        },
        txs_info: vec![],
        gravity_events: vec![],
        epoch: 1,
    }
}

fn cumulative(block: &ExecuteOrderedBlockResult<u8>) -> Vec<u64> {
    block.execution_output.result.receipts.iter().map(|r| r.cumulative_gas_used).collect()
}

fn ordered_block(timestamp_us: u64) -> OrderedBlock {
    OrderedBlock {
        epoch: 4,
        parent_id: [8; 32],
        number: 42,
        timestamp_us,
        coinbase: [9; 20],
        prev_randao: [10; 32],
    }
}

const CONFIG: GravityConfig =
    GravityConfig { pipe_block_gas_limit: 5000, cache_capacity: 10, cache_max_persist_gap: 3 };

fn epoch_block(chain_spec: ChainSpec, timestamp_us: u64) -> ExecuteOrderedBlockResult<u8> {
    system_txn(21).into_executed_ordered_block_result(
        &chain_spec,
        &ordered_block(timestamp_us),
        7,
        Default::default(),
        vec![1, 2],
        &CONFIG,
        &addresses(),
    )
}

#[test]
fn constants_are_those_of_the_chain() {
    assert_eq!(KECCAK_EMPTY, alloy_consensus::constants::KECCAK_EMPTY.0);
    assert_eq!(EMPTY_ROOT_HASH, alloy_consensus::constants::EMPTY_ROOT_HASH.0);
    assert_eq!(EMPTY_WITHDRAWALS, alloy_consensus::constants::EMPTY_WITHDRAWALS.0);
    assert_eq!(EMPTY_OMMER_ROOT_HASH, alloy_consensus::EMPTY_OMMER_ROOT_HASH.0);
    assert_eq!(BEACON_NONCE, u64::to_be_bytes(alloy_eips::merge::BEACON_NONCE));
}

#[test]
fn default_header_is_the_one_of_the_chain() {
    let ours = Header::default();
    let theirs = alloy_consensus::Header::default();
    assert_eq!(ours.parent_hash, theirs.parent_hash.0);
    assert_eq!(ours.ommers_hash, theirs.ommers_hash.0);
    assert_eq!(ours.beneficiary, theirs.beneficiary.into_array());
    assert_eq!(ours.state_root, theirs.state_root.0);
    assert_eq!(ours.transactions_root, theirs.transactions_root.0);
    assert_eq!(ours.receipts_root, theirs.receipts_root.0);
    assert_eq!(ours.logs_bloom, theirs.logs_bloom.0 .0);
    assert_eq!(ours.difficulty, theirs.difficulty.into_limbs());
    assert_eq!(ours.number, theirs.number);
    assert_eq!(ours.gas_limit, theirs.gas_limit);
    assert_eq!(ours.gas_used, theirs.gas_used);
    assert_eq!(ours.timestamp, theirs.timestamp);
    assert_eq!(ours.extra_data, theirs.extra_data.to_vec());
    assert_eq!(ours.mix_hash, theirs.mix_hash.0);
    assert_eq!(ours.nonce, theirs.nonce.0);
    assert_eq!(ours.base_fee_per_gas, theirs.base_fee_per_gas);
    assert!(ours.withdrawals_root.is_none() && theirs.withdrawals_root.is_none());
    assert_eq!(ours.blob_gas_used, theirs.blob_gas_used);
    assert_eq!(ours.excess_blob_gas, theirs.excess_blob_gas);
    assert!(ours.parent_beacon_block_root.is_none() && theirs.parent_beacon_block_root.is_none());
    assert!(ours.requests_hash.is_none() && theirs.requests_hash.is_none());
}

#[test]
fn transaction_is_inserted_in_front() {
    let mut result = block(&[10, 20, 30]);
    system_txn(5).insert_to_executed_ordered_block_result(&mut result, 0, &addresses());
    assert_eq!(cumulative(&result), vec![5, 15, 35, 65]);
    assert_eq!(result.block.header.gas_used, 65);
    assert_eq!(result.execution_output.result.gas_used, 65);
    assert_eq!(result.senders, vec![[1; 20], [100; 20], [101; 20], [102; 20]]);
    let receipt = &result.execution_output.result.receipts[0];
    assert_eq!(receipt.tx_type, TxType::Legacy);
    assert!(receipt.success);
    assert_eq!(receipt.logs.len(), 1);
    assert_eq!(receipt.logs[0].data, vec![9]);
    assert_eq!(result.block.body.transactions[0].tx_type(), TxType::Legacy);
    assert_eq!(result.block.body.transactions[1].tx_type(), TxType::Eip1559);
}

#[test]
fn transaction_is_inserted_in_the_middle_and_at_the_end() {
    let mut result = block(&[10, 20, 30]);
    system_txn(5).insert_to_executed_ordered_block_result(&mut result, 1, &addresses());
    assert_eq!(cumulative(&result), vec![10, 15, 35, 65]);
    assert_eq!(result.senders[1], [1; 20]);
    system_txn(100).insert_to_executed_ordered_block_result(&mut result, 4, &addresses());
    assert_eq!(cumulative(&result), vec![10, 15, 35, 65, 165]);
    assert_eq!(result.block.header.gas_used, 165);

    let mut empty = block(&[]);
    system_txn(3).insert_to_executed_ordered_block_result(&mut empty, 0, &addresses());
    assert_eq!(cumulative(&empty), vec![3]);
    assert_eq!(empty.execution_output.result.gas_used, 3);
}

#[test]
fn insertion_keeps_the_gas_of_others() {
    let mut result = block(&[10, 20, 30]);
    system_txn(5).insert_to_executed_ordered_block_result(&mut result, 2, &addresses());
    let c = cumulative(&result);
    let each: Vec<u64> = (0..4).map(|i| if i == 0 { c[0] } else { c[i] - c[i - 1] }).collect();
    assert_eq!(each, vec![10, 20, 5, 30]);
}

#[test]
fn failed_transaction_has_no_events_but_counts_as_success() {
    let mut result = block(&[10]);
    let txn = SystemTxnResult {
        result: ExecutionResult::Revert { gas_used: 4, output: vec![1] },
        txn: new_system_call_txn([2; 20], 0, 0, vec![]),
    };
    txn.insert_to_executed_ordered_block_result(&mut result, 0, &addresses());
    assert!(result.execution_output.result.receipts[0].success);
    assert!(result.execution_output.result.receipts[0].logs.is_empty());
    assert_eq!(cumulative(&result), vec![4, 14]);
}

#[test]
fn new_epoch_makes_a_block_of_its_own() {
    let spec = ChainSpec { shanghai_time: None, cancun_time: None };
    let result = epoch_block(spec, 3_999_999);
    let header = &result.block.header;
    assert_eq!(header.timestamp, 3);
    assert_eq!(header.beneficiary, [9; 20]);
    assert_eq!(header.mix_hash, [10; 32]);
    assert_eq!(header.base_fee_per_gas, Some(7));
    assert_eq!(header.number, 42);
    assert_eq!(header.gas_limit, 5000);
    assert_eq!(header.gas_used, 21);
    assert_eq!(header.ommers_hash, EMPTY_OMMER_ROOT_HASH);
    assert_eq!(header.nonce, BEACON_NONCE);
    assert_eq!(header.withdrawals_root, None);
    assert_eq!(header.parent_beacon_block_root, None);
    assert_eq!(header.excess_blob_gas, None);
    assert_eq!(header.blob_gas_used, None);
    assert!(result.block.body.withdrawals.is_none());
    assert_eq!(result.block.body.transactions.len(), 1);
    assert_eq!(result.senders, vec![[1; 20]]);
    assert_eq!(cumulative(&result), vec![21]);
    assert_eq!(result.execution_output.result.gas_used, 21);
    assert_eq!(result.execution_output.result.receipts[0].logs.len(), 1);
    assert!(result.txs_info.is_empty());
    assert_eq!(result.epoch, 5);
    assert_eq!(result.gravity_events.len(), 1);
    match &result.gravity_events[0] {
        GravityEvent::NewEpoch(epoch, validators) => {
            assert_eq!(*epoch, 5);
            assert_eq!(*validators, vec![1, 2]);
        }
    }
}

#[test]
fn forks_add_header_fields() {
    let spec = ChainSpec { shanghai_time: Some(3), cancun_time: Some(4) };
    let before = epoch_block(spec, 2_999_999);
    assert_eq!(before.block.header.withdrawals_root, None);
    let shanghai = epoch_block(spec, 3_000_000);
    assert_eq!(shanghai.block.header.withdrawals_root, Some(EMPTY_WITHDRAWALS));
    assert_eq!(shanghai.block.body.withdrawals.as_ref().map(|w| w.len()), Some(0));
    assert_eq!(shanghai.block.header.parent_beacon_block_root, None);
    let cancun = epoch_block(spec, 4_000_000);
    assert_eq!(cancun.block.header.parent_beacon_block_root, Some([8; 32]));
    assert_eq!(cancun.block.header.excess_blob_gas, Some(0));
    assert_eq!(cancun.block.header.blob_gas_used, Some(0));
}

#[test]
fn first_new_epoch_event_counts() {
    let decode = |log: &Log| {
        if log.data[0] >= 5 {
            Some((log.data[0] as u64, vec![log.data[0]]))
        } else {
            None
        }
    };
    let txn = |result| SystemTxnResult { result, txn: new_system_call_txn([0; 20], 0, 0, vec![]) };
    let found = txn(success(1, vec![log(1), log(6), log(7)])).emit_new_epoch(decode);
    assert_eq!(found, Some((6, vec![6])));
    assert_eq!(txn(success(1, vec![log(1)])).emit_new_epoch(decode), None);
    assert_eq!(txn(success(1, vec![])).emit_new_epoch(decode), None);
    let reverted = ExecutionResult::Revert { gas_used: 1, output: vec![] };
    assert_eq!(txn(reverted).emit_new_epoch(decode), None);
}

#[test]
fn refused_transaction_counts_as_reverted() {
    let (result, state) = transact_system_txn(user_txn(1), None);
    assert!(!result.result.is_success());
    assert_eq!(result.result.gas_used(), 0);
    assert!(matches!(&result.result, ExecutionResult::Revert { output, .. } if output.is_empty()));
    assert!(state.is_empty());
    assert_eq!(result.txn.tx_type(), TxType::Eip1559);
}

#[test]
fn executed_transaction_keeps_its_outcome() {
    let mut changes = EvmState::default();
    changes.insert([3; 20].into(), Account::default());
    let (result, state) = transact_system_txn(user_txn(1), Some((success(8, vec![]), changes)));
    assert!(result.result.is_success());
    assert_eq!(result.result.gas_used(), 8);
    assert_eq!(state.len(), 1);
    let halted = ExecutionResult::Halt {
        reason: revm::context_interface::result::HaltReason::CallTooDeep,
        gas_used: 12,
    };
    let (result, _) = transact_system_txn(user_txn(1), Some((halted, EvmState::default())));
    assert!(!result.result.is_success());
    assert_eq!(result.result.gas_used(), 12);
    assert!(result.result.into_logs().is_empty());
}

#[test]
fn newer_state_changes_win() {
    let key = |byte: u8| alloy_primitives::Address::from([byte; 20]);
    let account = |id: usize| Account { transaction_id: id, ..Default::default() };
    let mut accumulated = EvmState::default();
    accumulated.insert([1; 20].into(), account(1));
    accumulated.insert([2; 20].into(), account(1));
    let mut newer = EvmState::default();
    newer.insert([2; 20].into(), account(2));
    newer.insert([3; 20].into(), account(2));
    merge_state_changes(&mut accumulated, newer);
    assert_eq!(accumulated.len(), 3);
    assert_eq!(accumulated[&key(1)].transaction_id, 1);
    assert_eq!(accumulated[&key(2)].transaction_id, 2);
    assert_eq!(accumulated[&key(3)].transaction_id, 2);
    merge_state_changes(&mut accumulated, EvmState::default());
    assert_eq!(accumulated.len(), 3);
}

#[test]
fn merging_is_associative() {
    let changes = |keys: &[u8], id: usize| {
        let mut state = EvmState::default();
        for key in keys {
            state.insert([*key; 20].into(), Account { transaction_id: id, ..Default::default() });
        }
        state
    };
    let mut left = changes(&[1, 2, 3], 1);
    merge_state_changes(&mut left, changes(&[2, 4], 2));
    merge_state_changes(&mut left, changes(&[3, 4], 3));
    let mut later = changes(&[2, 4], 2);
    merge_state_changes(&mut later, changes(&[3, 4], 3));
    let mut right = changes(&[1, 2, 3], 1);
    merge_state_changes(&mut right, later);
    assert_eq!(left, right);
}

#[test]
fn metadata_transaction_calls_the_block_contract() {
    let input = |txn: TransactionSigned| match txn.transaction {
        Transaction::Legacy(tx) => {
            assert_eq!(tx.chain_id, None);
            assert_eq!(tx.nonce, 5);
            assert_eq!(tx.gas_price, 6);
            assert_eq!(tx.gas_limit, 30_000_000);
            assert!(matches!(tx.to, TxKind::Call(address) if address == [2; 20]));
            assert_eq!(tx.value, [0; 4]);
            assert_eq!(txn.signature.r, [0; 4]);
            assert_eq!(txn.signature.s, [0; 4]);
            assert!(!txn.signature.y_parity);
            tx.input
        }
        _ => panic!("system transactions are legacy transactions"),
    };
    let expected = |proposer: u64| {
        let mut data = vec![0x8d, 0x4a, 0xdf, 0xd5];
        data.extend(
            <(sol_data::Uint<64>, sol_data::Array<sol_data::Uint<64>>, sol_data::Uint<64>)>::abi_encode_sequence(
                &(proposer, Vec::<u64>::new(), 1234u64),
            ),
        );
        data
    };
    let proposed = input(construct_metadata_txn(5, 6, 1234, Some(3), &addresses()));
    assert_eq!(proposed, expected(3));
    assert_eq!(proposed.len(), 4 + 4 * 32);
    assert_eq!(proposed[4 + 31], 3);
    assert_eq!(proposed[4 + 63], 96);
    assert_eq!(proposed[4 + 94..4 + 96], [0x04, 0xd2]);
    assert_eq!(proposed[4 + 127], 0);
    let nil = input(construct_metadata_txn(5, 6, 1234, None, &addresses()));
    assert_eq!(NIL_PROPOSER_INDEX, u64::MAX);
    assert_eq!(nil, expected(u64::MAX));
}

#[test]
fn system_transactions_are_sent_by_the_system_caller() {
    let txn = new_system_call_txn([2; 20], 3, 4, vec![5, 6]);
    let env = system_tx_env(&txn, &addresses());
    assert_eq!(env.tx_type, 0);
    assert_eq!(env.caller, [1; 20]);
    assert_eq!(env.gas_limit, 30_000_000);
    assert_eq!(env.gas_price, 4);
    assert!(matches!(env.kind, TxKind::Call(address) if address == [2; 20]));
    assert_eq!(env.value, [0; 4]);
    assert_eq!(env.data, vec![5, 6]);
    assert_eq!(env.nonce, 3);
    assert_eq!(env.chain_id, None);
    assert!(env.access_list.is_empty());
    assert_eq!(env.gas_priority_fee, None);
    assert!(env.blob_hashes.is_empty());
    assert_eq!(env.max_fee_per_blob_gas, 0);
    assert!(env.authorization_list.is_empty());
}

#[test]
fn typed_transactions_have_an_environment_too() {
    let env = system_tx_env(&user_txn(7), &addresses());
    assert_eq!(env.tx_type, 2);
    assert_eq!(env.caller, [1; 20]);
    assert_eq!(env.chain_id, Some(11));
    assert_eq!(env.nonce, 12);
    assert_eq!(env.gas_limit, 13);
    assert_eq!(env.gas_price, 14);
    assert_eq!(env.gas_priority_fee, Some(15));
    assert!(matches!(env.kind, TxKind::Create));
    assert_eq!(env.value, [16, 0, 0, 0]);
    assert_eq!(env.data, vec![7]);
    assert_eq!(env.access_list.len(), 1);
    assert_eq!(env.access_list[0].address, [21; 20]);
    assert_eq!(env.access_list[0].storage_keys, vec![[22; 32], [23; 32]]);

    let eip2930 = signed(Transaction::Eip2930(TxEip2930 {
        chain_id: 1,
        nonce: 2,
        gas_price: 3,
        gas_limit: 4,
        to: TxKind::Call([5; 20]),
        value: [6, 0, 0, 0],
        access_list: access_list(),
        input: vec![7],
    }));
    assert_eq!(eip2930.tx_type(), TxType::Eip2930);
    let env = system_tx_env(&eip2930, &addresses());
    assert_eq!(env.tx_type, 1);
    assert_eq!(env.gas_price, 3);
    assert_eq!(env.gas_priority_fee, None);
    assert_eq!(env.access_list.len(), 1);

    let eip4844 = signed(Transaction::Eip4844(TxEip4844 {
        chain_id: 1,
        nonce: 2,
        gas_limit: 3,
        max_fee_per_gas: 4,
        max_priority_fee_per_gas: 5,
        to: [6; 20],
        value: [7, 0, 0, 0],
        access_list: vec![],
        blob_versioned_hashes: vec![[8; 32], [9; 32]],
        max_fee_per_blob_gas: 10,
        input: vec![],
    }));
    assert_eq!(eip4844.tx_type(), TxType::Eip4844);
    let env = system_tx_env(&eip4844, &addresses());
    assert_eq!(env.tx_type, 3);
    assert!(matches!(env.kind, TxKind::Call(address) if address == [6; 20]));
    assert_eq!(env.gas_price, 4);
    assert_eq!(env.gas_priority_fee, Some(5));
    assert_eq!(env.blob_hashes, vec![[8; 32], [9; 32]]);
    assert_eq!(env.max_fee_per_blob_gas, 10);

    let authorization = SignedAuthorization {
        chain_id: [1, 0, 0, 0],
        address: [2; 20],
        nonce: 3,
        y_parity: 1,
        r: [4, 0, 0, 0],
        s: [5, 0, 0, 0],
    };
    let eip7702 = signed(Transaction::Eip7702(TxEip7702 {
        chain_id: 1,
        nonce: 2,
        gas_limit: 3,
        max_fee_per_gas: 4,
        max_priority_fee_per_gas: 5,
        to: [6; 20],
        value: [7, 0, 0, 0],
        access_list: vec![],
        authorization_list: vec![authorization],
        input: vec![],
    }));
    assert_eq!(eip7702.tx_type(), TxType::Eip7702);
    let env = system_tx_env(&eip7702, &addresses());
    assert_eq!(env.tx_type, 4);
    assert!(matches!(env.kind, TxKind::Call(address) if address == [6; 20]));
    assert_eq!(env.authorization_list.len(), 1);
    assert_eq!(env.authorization_list[0].nonce, 3);
    assert_eq!(env.authorization_list[0].r, [4, 0, 0, 0]);
}
