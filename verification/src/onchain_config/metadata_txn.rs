//! System transactions: how they are built, executed and put into a block.

use revm::state::EvmState;
use vstd::prelude::*;

use super::abi;
use super::abi::{call_data, encode_block_start, ON_BLOCK_START};
use super::base::SystemAddresses;
use crate::evm_state;
use crate::evm_state::new_evm_state;
use crate::execution::{
    Block, BlockBody, BlockExecutionOutput, BlockExecutionResult, ChainSpec, ExecuteOrderedBlockResult,
    ExecutionResult, GravityConfig, GravityEvent, Header, Log, OrderedBlock, Receipt, Signature,
    Transaction, TransactionSigned, TxKind, TxLegacy,
};
use crate::primitives::{
    Address, BEACON_NONCE, EMPTY_OMMER_ROOT_HASH, EMPTY_ROOT_HASH, EMPTY_WITHDRAWALS, U256_ZERO,
    ZERO_HASH,
};
use crate::tx_env;
use crate::tx_env::TxEnv;

verus! {

/// The proposer index of a block that consensus could not fill, and which nobody proposed.
pub const NIL_PROPOSER_INDEX: u64 = u64::MAX;

/// The most gas that a system transaction may use.
pub const SYSTEM_TXN_GAS_LIMIT: u64 = 30_000_000;

/// Microseconds in a second.
pub const MICROS_PER_SECOND: u64 = 1_000_000;

/// An executed system transaction. System transactions run one by one, before those of users.
#[derive(Debug)]
pub struct SystemTxnResult {
    /// The outcome.
    pub result: ExecutionResult,
    /// The transaction.
    pub txn: TransactionSigned,
}

/// Whether `header` is the header of a block that holds nothing but a system transaction.
pub open spec fn is_system_header(
    header: Header,
    chain_spec: ChainSpec,
    ordered_block: OrderedBlock,
    base_fee: u64,
    gas_limit: u64,
    gas_used: u64,
) -> bool {
    let timestamp = ordered_block.timestamp_us / MICROS_PER_SECOND;
    let cancun = ChainSpec::active_at(chain_spec.cancun_time, timestamp);
    &&& header.beneficiary == ordered_block.coinbase
    &&& header.timestamp == timestamp
    &&& header.mix_hash == ordered_block.prev_randao
    &&& header.base_fee_per_gas == Some(base_fee)
    &&& header.number == ordered_block.number
    &&& header.gas_limit == gas_limit
    &&& header.gas_used == gas_used
    &&& header.withdrawals_root == if ChainSpec::active_at(chain_spec.shanghai_time, timestamp) {
        Some(EMPTY_WITHDRAWALS)
    } else {
        None
    }
    &&& header.parent_beacon_block_root == if cancun {
        Some(ordered_block.parent_id)
    } else {
        None
    }
    &&& header.excess_blob_gas == if cancun {
        Some(0u64)
    } else {
        None
    }
    &&& header.blob_gas_used == if cancun {
        Some(0u64)
    } else {
        None
    }
    &&& header.has_default_roots()
}

/// `receipt` with `gas` more used before it.
pub open spec fn with_more_gas(receipt: Receipt, gas: u64) -> Receipt {
    Receipt { cumulative_gas_used: (receipt.cumulative_gas_used + gas) as u64, ..receipt }
}

/// Gas used by the first `n` of the transactions that `receipts` stand for.
pub open spec fn gas_before(receipts: Seq<Receipt>, n: int) -> u64 {
    if n == 0 {
        0
    } else {
        receipts[n - 1].cumulative_gas_used
    }
}

/// Whether gas and receipts of `block` fit together: every transaction has a sender and a
/// receipt, the cumulative gas never falls, and all of it is what the block used.
pub open spec fn accounted<Info>(block: ExecuteOrderedBlockResult<Info>) -> bool {
    let receipts = block.execution_output.result.receipts@;
    &&& block.senders@.len() == receipts.len()
    &&& block.block.body.transactions@.len() == receipts.len()
    &&& forall|i: int, j: int|
        0 <= i <= j < receipts.len() ==> (#[trigger] receipts[i]).cumulative_gas_used <= (
        #[trigger] receipts[j]).cumulative_gas_used
    &&& block.execution_output.result.gas_used == gas_before(receipts, receipts.len() as int)
    &&& block.block.header.gas_used == block.execution_output.result.gas_used
}

/// Adds `gas` to the cumulative gas of every receipt from `start` on.
fn add_gas(receipts: &mut Vec<Receipt>, start: usize, gas: u64)
    requires
        start <= old(receipts)@.len(),
        forall|i: int|
            start <= i < old(receipts)@.len() ==> (#[trigger] old(receipts)@[i]).cumulative_gas_used
                + gas <= u64::MAX,
    ensures
        final(receipts)@.len() == old(receipts)@.len(),
        forall|i: int| 0 <= i < start ==> #[trigger] final(receipts)@[i] == old(receipts)@[i],
        forall|i: int|
            start <= i < old(receipts)@.len() ==> #[trigger] final(receipts)@[i] == with_more_gas(
                old(receipts)@[i],
                gas,
            ),
        forall|i: int|
            #![trigger final(receipts)@[i]]
            start <= i < old(receipts)@.len() ==> {
                &&& final(receipts)@[i].tx_type == old(receipts)@[i].tx_type
                &&& final(receipts)@[i].success == old(receipts)@[i].success
                &&& final(receipts)@[i].logs == old(receipts)@[i].logs
                &&& final(receipts)@[i].cumulative_gas_used == old(
                    receipts,
                )@[i].cumulative_gas_used + gas
            },
{
    let ghost before = receipts@;
    let mut i: usize = start;
    while i < receipts.len()
        invariant
            start <= i <= before.len(),
            receipts@.len() == before.len(),
            forall|j: int|
                start <= j < before.len() ==> (#[trigger] before[j]).cumulative_gas_used + gas
                    <= u64::MAX,
            forall|j: int|
                0 <= j < before.len() && (j < start || i <= j) ==> #[trigger] receipts@[j]
                    == before[j],
            forall|j: int|
                start <= j < i ==> #[trigger] receipts@[j] == with_more_gas(before[j], gas),
        decreases before.len() - i,
    {
        assert(before[i as int].cumulative_gas_used + gas <= u64::MAX);
        let cumulative_gas_used: u64 = receipts[i].cumulative_gas_used + gas;
        receipts[i].cumulative_gas_used = cumulative_gas_used;
        i += 1;
    }
}

impl SystemTxnResult {
    /// Whether `receipt` is the receipt of this transaction in a block that used
    /// `cumulative_gas_used` up to and including it.
    pub open spec fn has_receipt(self, receipt: Receipt, cumulative_gas_used: int) -> bool {
        &&& receipt.tx_type == self.txn.kind()
        &&& receipt.success
        &&& receipt.cumulative_gas_used == cumulative_gas_used
        &&& receipt.logs@ == self.result.events()
    }

    /// Whether `after` is the block `before` with this transaction in front of the one at
    /// `position`: its receipt and its sender stand at the same place, the receipts behind it
    /// count its gas, and so does the block.
    pub open spec fn is_inserted<Info>(
        self,
        before: ExecuteOrderedBlockResult<Info>,
        after: ExecuteOrderedBlockResult<Info>,
        position: int,
        system_caller: Address,
    ) -> bool {
        let old_receipts = before.execution_output.result.receipts@;
        let new_receipts = after.execution_output.result.receipts@;
        let gas = self.result.gas();
        &&& new_receipts.len() == old_receipts.len() + 1
        &&& forall|i: int| 0 <= i < position ==> #[trigger] new_receipts[i] == old_receipts[i]
        &&& self.has_receipt(new_receipts[position], gas_before(old_receipts, position) + gas)
        &&& forall|i: int|
            position < i < new_receipts.len() ==> #[trigger] new_receipts[i] == with_more_gas(
                old_receipts[i - 1],
                gas,
            )
        &&& after.execution_output.result.gas_used == before.execution_output.result.gas_used + gas
        &&& after.execution_output.result.requests == before.execution_output.result.requests
        &&& after.execution_output.state == before.execution_output.state
        &&& after.block.header.gas_used == before.block.header.gas_used + gas
        &&& after.block.header == (Header {
            gas_used: after.block.header.gas_used,
            ..before.block.header
        })
        &&& after.block.body.transactions@ == before.block.body.transactions@.insert(
            position,
            self.txn,
        )
        &&& after.block.body.ommers == before.block.body.ommers
        &&& after.block.body.withdrawals == before.block.body.withdrawals
        &&& after.senders@ == before.senders@.insert(position, system_caller)
        &&& after.txs_info == before.txs_info
        &&& after.gravity_events == before.gravity_events
        &&& after.epoch == before.epoch
    }

    /// The first event of the transaction that `decode` takes for the start of a new epoch, as
    /// the number of the epoch and the encoded validator set.
    pub fn emit_new_epoch(&self, decode: impl Fn(&Log) -> Option<(u64, Vec<u8>)>) -> (r: Option<(u64, Vec<u8>)>)
        requires
            forall|log: &Log| #[trigger] call_requires(decode, (log,)),
        ensures
            match r {
                Some(epoch) => exists|i: int|
                    {
                        &&& 0 <= i < self.result.events().len()
                        &&& #[trigger] call_ensures(decode, (&self.result.events()[i],), Some(epoch))
                        &&& forall|j: int|
                            0 <= j < i ==> #[trigger] call_ensures(
                                decode,
                                (&self.result.events()[j],),
                                None,
                            )
                    },
                None => forall|j: int|
                    0 <= j < self.result.events().len() ==> #[trigger] call_ensures(
                        decode,
                        (&self.result.events()[j],),
                        None,
                    ),
            },
    {
        match &self.result {
            ExecutionResult::Success { logs, .. } => {
                let mut i: usize = 0;
                while i < logs.len()
                    invariant
                        i <= logs.len(),
                        logs@ == self.result.events(),
                        forall|log: &Log| #[trigger] call_requires(decode, (log,)),
                        forall|j: int|
                            0 <= j < i ==> #[trigger] call_ensures(
                                decode,
                                (&self.result.events()[j],),
                                None,
                            ),
                    decreases logs.len() - i,
                {
                    match decode(&logs[i]) {
                        Some(epoch) => {
                            assert(call_ensures(
                                decode,
                                (&self.result.events()[i as int],),
                                Some(epoch),
                            ));
                            return Some(epoch);
                        },
                        None => {},
                    }
                    i += 1;
                }
                None
            },
            _ => None,
        }
    }

    /// Makes a whole block of the transaction. This is for a transaction that started a new
    /// epoch: the block is discarded but for it, and the next epoch begins with `validators`.
    pub fn into_executed_ordered_block_result<Info>(
        self,
        chain_spec: &ChainSpec,
        ordered_block: &OrderedBlock,
        base_fee: u64,
        state: revm_database::BundleState,
        validators: Vec<u8>,
        config: &GravityConfig,
        addresses: &SystemAddresses,
    ) -> (r: ExecuteOrderedBlockResult<Info>)
        requires
            ordered_block.epoch < u64::MAX,
        ensures
            is_system_header(
                r.block.header,
                *chain_spec,
                *ordered_block,
                base_fee,
                config.pipe_block_gas_limit,
                self.result.gas(),
            ),
            r.block.body.transactions@ == seq![self.txn],
            r.block.body.ommers@.len() == 0,
            match r.block.body.withdrawals {
                Some(withdrawals) => r.block.header.withdrawals_root is Some && withdrawals@.len()
                    == 0,
                None => r.block.header.withdrawals_root is None,
            },
            r.senders@ == seq![addresses.system_caller],
            r.execution_output.state == state,
            r.execution_output.result.receipts@.len() == 1,
            self.has_receipt(r.execution_output.result.receipts@[0], self.result.gas() as int),
            r.execution_output.result.requests@.len() == 0,
            r.execution_output.result.gas_used == self.result.gas(),
            r.txs_info@.len() == 0,
            r.gravity_events@ == seq![GravityEvent::NewEpoch(r.epoch, validators)],
            r.epoch == ordered_block.epoch + 1,
            accounted(r),
            r.block.header.beneficiary == ordered_block.coinbase,
            r.block.header.timestamp == ordered_block.timestamp_us / 1_000_000,
            r.block.header.mix_hash == ordered_block.prev_randao,
            r.block.header.base_fee_per_gas == Some(base_fee),
            r.block.header.number == ordered_block.number,
            r.block.header.gas_limit == config.pipe_block_gas_limit,
            r.block.header.gas_used == self.result.gas(),
            chain_spec.shanghai_time matches Some(time) ==> (ordered_block.timestamp_us / 1_000_000
                >= time <==> r.block.header.withdrawals_root is Some),
            chain_spec.shanghai_time is None ==> r.block.header.withdrawals_root is None,
            r.block.header.withdrawals_root matches Some(root) ==> root == EMPTY_WITHDRAWALS,
            r.block.body.withdrawals is Some <==> r.block.header.withdrawals_root is Some,
            chain_spec.cancun_time matches Some(time) ==> (ordered_block.timestamp_us / 1_000_000
                >= time <==> r.block.header.parent_beacon_block_root is Some),
            chain_spec.cancun_time is None ==> r.block.header.parent_beacon_block_root is None,
            r.block.header.parent_beacon_block_root matches Some(root) ==> root
                == ordered_block.parent_id,
            r.block.header.excess_blob_gas is Some
                <==> r.block.header.parent_beacon_block_root is Some,
            r.block.header.excess_blob_gas matches Some(gas) ==> gas == 0,
            r.block.header.blob_gas_used is Some
                <==> r.block.header.parent_beacon_block_root is Some,
            r.block.header.blob_gas_used matches Some(gas) ==> gas == 0,
            r.execution_output.result.receipts@[0].tx_type == self.txn.kind(),
            r.execution_output.result.receipts@[0].success,
            r.execution_output.result.receipts@[0].cumulative_gas_used == self.result.gas(),
            r.execution_output.result.receipts@[0].logs@ == self.result.events(),
    {
        let tx_type = self.txn.tx_type();
        let gas_used: u64 = self.result.gas_used();
        let timestamp: u64 = ordered_block.timestamp_us / MICROS_PER_SECOND;
        let mut header: Header = Default::default();
        header.beneficiary = ordered_block.coinbase;
        header.timestamp = timestamp;
        header.mix_hash = ordered_block.prev_randao;
        header.base_fee_per_gas = Some(base_fee);
        header.number = ordered_block.number;
        header.gas_limit = config.pipe_block_gas_limit;
        header.ommers_hash = EMPTY_OMMER_ROOT_HASH;
        header.nonce = BEACON_NONCE;
        header.gas_used = gas_used;

        let mut withdrawals = None;
        if chain_spec.is_shanghai_active_at_timestamp(timestamp) {
            header.withdrawals_root = Some(EMPTY_WITHDRAWALS);
            withdrawals = Some(Vec::new());
        }
        if chain_spec.is_cancun_active_at_timestamp(timestamp) {
            header.parent_beacon_block_root = Some(ordered_block.parent_id);
            header.excess_blob_gas = Some(0);
            header.blob_gas_used = Some(0);
        }

        let new_epoch: u64 = ordered_block.epoch + 1;
        let receipt = Receipt {
            tx_type,
            success: true,
            cumulative_gas_used: gas_used,
            logs: self.result.into_logs(),
        };
        ExecuteOrderedBlockResult {
            block: Block {
                header,
                body: BlockBody { transactions: vec![self.txn], ommers: Vec::new(), withdrawals },
            },
            senders: vec![addresses.system_caller],
            execution_output: BlockExecutionOutput {
                result: BlockExecutionResult {
                    receipts: vec![receipt],
                    requests: Vec::new(),
                    gas_used,
                },
                state,
            },
            txs_info: Vec::new(),
            gravity_events: vec![GravityEvent::NewEpoch(new_epoch, validators)],
            epoch: new_epoch,
        }
    }

    /// Puts the transaction into an executed block, in front of the one at `insert_position`.
    /// The first position is for the metadata transaction, those behind it for the
    /// transactions of validators.
    pub fn insert_to_executed_ordered_block_result<Info>(
        self,
        result: &mut ExecuteOrderedBlockResult<Info>,
        insert_position: usize,
        addresses: &SystemAddresses,
    )
        requires
            insert_position <= old(result).execution_output.result.receipts@.len(),
            insert_position <= old(result).block.body.transactions@.len(),
            insert_position <= old(result).senders@.len(),
            old(result).block.header.gas_used + self.result.gas() <= u64::MAX,
            old(result).execution_output.result.gas_used + self.result.gas() <= u64::MAX,
            forall|i: int|
                insert_position - 1 <= i < old(result).execution_output.result.receipts@.len() && 0
                    <= i ==> (#[trigger] old(
                    result,
                ).execution_output.result.receipts@[i]).cumulative_gas_used + self.result.gas()
                    <= u64::MAX,
        ensures
            self.is_inserted(
                *old(result),
                *final(result),
                insert_position as int,
                addresses.system_caller,
            ),
            final(result).execution_output.result.receipts@.len() == old(
                result,
            ).execution_output.result.receipts@.len() + 1,
            forall|i: int|
                #![trigger old(result).execution_output.result.receipts@[i]]
                0 <= i < old(result).execution_output.result.receipts@.len() ==> {
                    let receipt = old(result).execution_output.result.receipts@[i];
                    let kept = final(result).execution_output.result.receipts@[if i
                        < insert_position {
                        i
                    } else {
                        i + 1
                    }];
                    &&& kept.tx_type == receipt.tx_type
                    &&& kept.success == receipt.success
                    &&& kept.logs == receipt.logs
                    &&& kept.cumulative_gas_used == receipt.cumulative_gas_used + if i
                        < insert_position {
                        0
                    } else {
                        self.result.gas() as int
                    }
                },
    {
        let gas_used: u64 = self.result.gas_used();
        result.block.header.gas_used = result.block.header.gas_used + gas_used;
        result.execution_output.result.gas_used = result.execution_output.result.gas_used + gas_used;

        let cumulative_gas_used: u64 = if insert_position == 0 {
            gas_used
        } else {
            result.execution_output.result.receipts[insert_position - 1].cumulative_gas_used
                + gas_used
        };

        // Everything behind the transaction has its gas used before it.
        add_gas(&mut result.execution_output.result.receipts, insert_position, gas_used);

        let receipt = Receipt {
            tx_type: self.txn.tx_type(),
            success: true,
            cumulative_gas_used,
            logs: self.result.into_logs(),
        };
        result.execution_output.result.receipts.insert(insert_position, receipt);
        result.block.body.transactions.insert(insert_position, self.txn);
        result.senders.insert(insert_position, addresses.system_caller);
        assert(forall|i: int|
            #![trigger old(result).execution_output.result.receipts@[i]]
            insert_position <= i < old(result).execution_output.result.receipts@.len()
                ==> result.execution_output.result.receipts@[i + 1] == with_more_gas(
                old(result).execution_output.result.receipts@[i],
                gas_used,
            ));
    }
}

/// Gas used by the transaction at `i` alone.
pub open spec fn gas_of(receipts: Seq<Receipt>, i: int) -> int {
    receipts[i].cumulative_gas_used - gas_before(receipts, i)
}

/// A block whose gas and receipts fit together stays so when a system transaction is put into
/// it.
pub proof fn law_insertion_keeps_block_accounted<Info>(
    txn: SystemTxnResult,
    before: ExecuteOrderedBlockResult<Info>,
    after: ExecuteOrderedBlockResult<Info>,
    position: int,
    system_caller: Address,
)
    requires
        accounted(before),
        0 <= position <= before.execution_output.result.receipts@.len(),
        before.block.header.gas_used + txn.result.gas() <= u64::MAX,
        txn.is_inserted(before, after, position, system_caller),
    ensures
        accounted(after),
{
    let old_receipts = before.execution_output.result.receipts@;
    let new_receipts = after.execution_output.result.receipts@;
    let last = old_receipts.len() - 1;
    assert forall|i: int| 0 <= i < old_receipts.len() implies (
    #[trigger] old_receipts[i]).cumulative_gas_used + txn.result.gas() <= u64::MAX by {
        assert(old_receipts[i].cumulative_gas_used <= old_receipts[last].cumulative_gas_used);
    }
    assert forall|i: int, j: int| 0 <= i <= j < new_receipts.len() implies (
    #[trigger] new_receipts[i]).cumulative_gas_used <= (
    #[trigger] new_receipts[j]).cumulative_gas_used by {
        if j < position {
            assert(old_receipts[i].cumulative_gas_used <= old_receipts[j].cumulative_gas_used);
        } else if j == position {
            if i < position {
                assert(old_receipts[i].cumulative_gas_used
                    <= old_receipts[position - 1].cumulative_gas_used);
            }
        } else {
            if i < position {
                assert(old_receipts[i].cumulative_gas_used <= old_receipts[j - 1].cumulative_gas_used);
            } else if i == position {
                if position > 0 {
                    assert(old_receipts[position - 1].cumulative_gas_used
                        <= old_receipts[j - 1].cumulative_gas_used);
                }
            } else {
                assert(old_receipts[i - 1].cumulative_gas_used
                    <= old_receipts[j - 1].cumulative_gas_used);
            }
        }
    }
}

/// A transaction used as much gas in the block before a system transaction was put into it as
/// afterwards, and the system transaction uses what its execution used.
pub proof fn law_insertion_keeps_gas_of_others<Info>(
    txn: SystemTxnResult,
    before: ExecuteOrderedBlockResult<Info>,
    after: ExecuteOrderedBlockResult<Info>,
    position: int,
    system_caller: Address,
    i: int,
)
    requires
        accounted(before),
        0 <= position <= before.execution_output.result.receipts@.len(),
        before.block.header.gas_used + txn.result.gas() <= u64::MAX,
        txn.is_inserted(before, after, position, system_caller),
        0 <= i < before.execution_output.result.receipts@.len(),
    ensures
        gas_of(after.execution_output.result.receipts@, position) == txn.result.gas(),
        gas_of(
            after.execution_output.result.receipts@,
            if i < position {
                i
            } else {
                i + 1
            },
        ) == gas_of(before.execution_output.result.receipts@, i),
{
    let old_receipts = before.execution_output.result.receipts@;
    let last = old_receipts.len() - 1;
    assert(old_receipts[i].cumulative_gas_used <= old_receipts[last].cumulative_gas_used);
    if i > 0 {
        assert(old_receipts[i - 1].cumulative_gas_used <= old_receipts[last].cumulative_gas_used);
    }
}

/// Every transaction that was in the block keeps its receipt when a system transaction is put
/// into it: type, success and logs stay, before and behind the new one. Only the cumulative gas
/// of those behind it grows, by the gas of the new one.
pub proof fn law_insertion_keeps_receipts<Info>(
    txn: SystemTxnResult,
    before: ExecuteOrderedBlockResult<Info>,
    after: ExecuteOrderedBlockResult<Info>,
    position: int,
    system_caller: Address,
    i: int,
)
    requires
        0 <= position <= before.execution_output.result.receipts@.len(),
        0 <= i < before.execution_output.result.receipts@.len(),
        before.execution_output.result.receipts@[i].cumulative_gas_used + txn.result.gas()
            <= u64::MAX,
        txn.is_inserted(before, after, position, system_caller),
    ensures
        ({
            let receipt = before.execution_output.result.receipts@[i];
            let kept = after.execution_output.result.receipts@[if i < position {
                i
            } else {
                i + 1
            }];
            &&& kept.tx_type == receipt.tx_type
            &&& kept.success == receipt.success
            &&& kept.logs == receipt.logs
            &&& i < position ==> kept.cumulative_gas_used == receipt.cumulative_gas_used
            &&& i >= position ==> kept.cumulative_gas_used == receipt.cumulative_gas_used
                + txn.result.gas()
        }),
{
    let new_receipts = after.execution_output.result.receipts@;
    if i < position {
        assert(new_receipts[i] == before.execution_output.result.receipts@[i]);
    } else {
        assert(new_receipts[i + 1] == with_more_gas(
            before.execution_output.result.receipts@[i],
            txn.result.gas(),
        ));
    }
}

/// A system transaction that is put into a block stands at its position, sent by the system
/// caller. Its receipt says that it succeeded, with its type, its events and the gas used up to
/// it. The other transactions and senders keep their order. Of the header and of the outcome
/// only the gas used grows, by that of the transaction.
pub proof fn law_insertion_places_transaction<Info>(
    txn: SystemTxnResult,
    before: ExecuteOrderedBlockResult<Info>,
    after: ExecuteOrderedBlockResult<Info>,
    position: int,
    system_caller: Address,
    i: int,
)
    requires
        0 <= position <= before.execution_output.result.receipts@.len(),
        position <= before.block.body.transactions@.len(),
        position <= before.senders@.len(),
        txn.is_inserted(before, after, position, system_caller),
    ensures
        ({
            let receipt = after.execution_output.result.receipts@[position];
            let used_before: int = if position > 0 {
                before.execution_output.result.receipts@[position - 1].cumulative_gas_used as int
            } else {
                0
            };
            &&& receipt.tx_type == txn.txn.kind()
            &&& receipt.success
            &&& receipt.cumulative_gas_used == used_before + txn.result.gas()
            &&& receipt.logs@ == txn.result.events()
        }),
        after.execution_output.result.receipts@.len()
            == before.execution_output.result.receipts@.len() + 1,
        after.block.body.transactions@.len() == before.block.body.transactions@.len() + 1,
        after.block.body.transactions@[position] == txn.txn,
        0 <= i < position ==> after.block.body.transactions@[i]
            == before.block.body.transactions@[i],
        position <= i < before.block.body.transactions@.len() ==> after.block.body.transactions@[i
            + 1] == before.block.body.transactions@[i],
        after.senders@.len() == before.senders@.len() + 1,
        after.senders@[position] == system_caller,
        0 <= i < position ==> after.senders@[i] == before.senders@[i],
        position <= i < before.senders@.len() ==> after.senders@[i + 1] == before.senders@[i],
        after.block.header.gas_used == before.block.header.gas_used + txn.result.gas(),
        after.execution_output.result.gas_used == before.execution_output.result.gas_used
            + txn.result.gas(),
        ({
            let (new, old_header) = (after.block.header, before.block.header);
            &&& new.parent_hash == old_header.parent_hash
            &&& new.ommers_hash == old_header.ommers_hash
            &&& new.beneficiary == old_header.beneficiary
            &&& new.state_root == old_header.state_root
            &&& new.transactions_root == old_header.transactions_root
            &&& new.receipts_root == old_header.receipts_root
            &&& new.logs_bloom == old_header.logs_bloom
            &&& new.difficulty == old_header.difficulty
            &&& new.number == old_header.number
            &&& new.gas_limit == old_header.gas_limit
            &&& new.timestamp == old_header.timestamp
            &&& new.extra_data == old_header.extra_data
            &&& new.mix_hash == old_header.mix_hash
            &&& new.nonce == old_header.nonce
            &&& new.base_fee_per_gas == old_header.base_fee_per_gas
            &&& new.withdrawals_root == old_header.withdrawals_root
            &&& new.blob_gas_used == old_header.blob_gas_used
            &&& new.excess_blob_gas == old_header.excess_blob_gas
            &&& new.parent_beacon_block_root == old_header.parent_beacon_block_root
            &&& new.requests_hash == old_header.requests_hash
        }),
        after.block.body.ommers == before.block.body.ommers,
        after.block.body.withdrawals == before.block.body.withdrawals,
        after.execution_output.result.requests == before.execution_output.result.requests,
        after.execution_output.state == before.execution_output.state,
        after.txs_info == before.txs_info,
        after.gravity_events == before.gravity_events,
        after.epoch == before.epoch,
{
}

/// What it means that gas and receipts of a block fit together: as many senders and transactions
/// as receipts, no receipt with less cumulative gas than one before it, and the last one with
/// what the outcome and the header say was used, which is nothing where there is no receipt.
pub proof fn law_accounted_block_adds_up<Info>(block: ExecuteOrderedBlockResult<Info>)
    ensures
        accounted(block) <==> {
            let receipts = block.execution_output.result.receipts@;
            let used: int = if receipts.len() > 0 {
                receipts.last().cumulative_gas_used as int
            } else {
                0
            };
            &&& block.senders@.len() == receipts.len()
            &&& block.block.body.transactions@.len() == receipts.len()
            &&& forall|i: int, j: int|
                0 <= i <= j < receipts.len() ==> (#[trigger] receipts[i]).cumulative_gas_used <= (
                #[trigger] receipts[j]).cumulative_gas_used
            &&& block.execution_output.result.gas_used == used
            &&& block.block.header.gas_used == used
        },
{
}

/// The header of a block that holds nothing but a system transaction has what consensus ordered:
/// beneficiary, number, randomness, and the time in whole seconds. From the time of Shanghai on
/// it has a root of withdrawals, from that of Cancun on the fields for blobs and the beacon
/// root. The rest is as in a header that nothing was put into.
pub proof fn law_system_header_has_what_was_ordered(
    header: Header,
    chain_spec: ChainSpec,
    ordered_block: OrderedBlock,
    base_fee: u64,
    gas_limit: u64,
    gas_used: u64,
)
    requires
        is_system_header(header, chain_spec, ordered_block, base_fee, gas_limit, gas_used),
    ensures
        header.beneficiary == ordered_block.coinbase,
        header.number == ordered_block.number,
        header.mix_hash == ordered_block.prev_randao,
        header.timestamp * 1_000_000 <= ordered_block.timestamp_us < (header.timestamp + 1)
            * 1_000_000,
        header.base_fee_per_gas == Some(base_fee),
        header.gas_limit == gas_limit,
        header.gas_used == gas_used,
        chain_spec.shanghai_time is None ==> header.withdrawals_root is None,
        chain_spec.shanghai_time matches Some(time) ==> {
            &&& header.timestamp >= time ==> header.withdrawals_root == Some(EMPTY_WITHDRAWALS)
            &&& header.timestamp < time ==> header.withdrawals_root is None
        },
        chain_spec.cancun_time is None ==> {
            &&& header.parent_beacon_block_root is None
            &&& header.excess_blob_gas is None
            &&& header.blob_gas_used is None
        },
        chain_spec.cancun_time matches Some(time) ==> {
            &&& header.timestamp >= time ==> {
                &&& header.parent_beacon_block_root == Some(ordered_block.parent_id)
                &&& header.excess_blob_gas == Some(0u64)
                &&& header.blob_gas_used == Some(0u64)
            }
            &&& header.timestamp < time ==> {
                &&& header.parent_beacon_block_root is None
                &&& header.excess_blob_gas is None
                &&& header.blob_gas_used is None
            }
        },
        header.parent_hash == ZERO_HASH,
        header.ommers_hash == EMPTY_OMMER_ROOT_HASH,
        header.state_root == EMPTY_ROOT_HASH,
        header.transactions_root == EMPTY_ROOT_HASH,
        header.receipts_root == EMPTY_ROOT_HASH,
        forall|i: int| 0 <= i < 256 ==> #[trigger] header.logs_bloom[i] == 0,
        header.difficulty == U256_ZERO,
        header.extra_data@.len() == 0,
        header.nonce == BEACON_NONCE,
        header.requests_hash is None,
{
}

/// What the virtual machine is given to execute for a system transaction: the transaction,
/// sent by the system caller whatever its signature.
pub fn system_tx_env(txn: &TransactionSigned, addresses: &SystemAddresses) -> (r: TxEnv)
    ensures
        r@ == tx_env::env_of(txn.transaction, addresses.system_caller),
{
    tx_env::tx_env(txn, addresses.system_caller)
}

/// What executing a system transaction comes to. `outcome` is what the virtual machine gave
/// back for the transaction sent by the system caller, `None` if it refused it. A system
/// transaction that fails is not an error: it counts as reverted, and changes nothing.
pub fn transact_system_txn(
    txn: TransactionSigned,
    outcome: Option<(ExecutionResult, EvmState)>,
) -> (r: (SystemTxnResult, EvmState))
    ensures
        r.0.txn == txn,
        match outcome {
            Some((result, state)) => r.0.result == result && r.1 == state,
            None => {
                &&& r.0.result matches ExecutionResult::Revert { gas_used, output }
                &&& gas_used == 0
                &&& output@ == Seq::<u8>::empty()
                &&& evm_state::evm_state_contents(r.1).is_empty()
            },
        },
{
    match outcome {
        Some((result, state)) => (SystemTxnResult { result, txn }, state),
        None => {
            let result = ExecutionResult::Revert { gas_used: 0, output: Vec::new() };
            (SystemTxnResult { result, txn }, new_evm_state())
        },
    }
}

/// Whether `txn` is a system call of `contract` with this input: a legacy transaction for any
/// chain, without value and without a signature.
pub open spec fn is_system_call(
    txn: TransactionSigned,
    contract: Address,
    nonce: u64,
    gas_price: u128,
    input: Seq<u8>,
) -> bool {
    &&& txn.transaction matches Transaction::Legacy(tx)
    &&& tx.chain_id is None
    &&& tx.nonce == nonce
    &&& tx.gas_price == gas_price
    &&& tx.gas_limit == SYSTEM_TXN_GAS_LIMIT
    &&& tx.to == TxKind::Call(contract)
    &&& tx.value == U256_ZERO
    &&& tx.input@ == input
    &&& txn.signature == (Signature { r: U256_ZERO, s: U256_ZERO, y_parity: false })
}

/// A system call is a legacy transaction for any chain that calls the contract with the input,
/// without value. It may use 30 million gas, and its signature is all zeros.
pub proof fn law_system_call_has_its_fields(
    txn: TransactionSigned,
    contract: Address,
    nonce: u64,
    gas_price: u128,
    input: Seq<u8>,
)
    requires
        is_system_call(txn, contract, nonce, gas_price, input),
    ensures
        txn.transaction matches Transaction::Legacy(tx) && {
            &&& tx.chain_id is None
            &&& tx.nonce == nonce
            &&& tx.gas_price == gas_price
            &&& tx.gas_limit == 30_000_000
            &&& tx.to == TxKind::Call(contract)
            &&& tx.value == U256_ZERO
            &&& tx.input@ == input
        },
        txn.signature.r == U256_ZERO,
        txn.signature.s == U256_ZERO,
        !txn.signature.y_parity,
{
}

/// A system call of `contract`.
pub fn new_system_call_txn(contract: Address, nonce: u64, gas_price: u128, input: Vec<u8>) -> (r: TransactionSigned)
    ensures
        is_system_call(r, contract, nonce, gas_price, input@),
        r.transaction matches Transaction::Legacy(tx) && {
            &&& tx.chain_id is None
            &&& tx.nonce == nonce
            &&& tx.gas_price == gas_price
            &&& tx.gas_limit == 30_000_000
            &&& tx.to == TxKind::Call(contract)
            &&& tx.value == U256_ZERO
            &&& tx.input@ == input@
        },
        r.signature.r == U256_ZERO,
        r.signature.s == U256_ZERO,
        !r.signature.y_parity,
{
    TransactionSigned {
        transaction: Transaction::Legacy(
            TxLegacy {
                chain_id: None,
                nonce,
                gas_price,
                gas_limit: SYSTEM_TXN_GAS_LIMIT,
                to: TxKind::Call(contract),
                value: U256_ZERO,
                input,
            },
        ),
        signature: Signature { r: U256_ZERO, s: U256_ZERO, y_parity: false },
    }
}

/// The transaction that tells the block contract of a new block: who proposed it, `None` for a
/// block that nobody proposed, and when. No proposer counts as failed.
pub fn construct_metadata_txn(
    nonce: u64,
    gas_price: u128,
    timestamp_us: u64,
    proposer_index: Option<u64>,
    addresses: &SystemAddresses,
) -> (r: TransactionSigned)
    ensures
        is_system_call(
            r,
            addresses.block,
            nonce,
            gas_price,
            ON_BLOCK_START@ + abi::encoded_block_start(
                match proposer_index {
                    Some(index) => index,
                    None => NIL_PROPOSER_INDEX,
                },
                Seq::empty(),
                timestamp_us,
            ),
        ),
{
    let proposer: u64 = match proposer_index {
        Some(index) => index,
        None => NIL_PROPOSER_INDEX,
    };
    let failed: Vec<u64> = Vec::new();
    let params = encode_block_start(proposer, &failed, timestamp_us);
    new_system_call_txn(addresses.block, nonce, gas_price, call_data(ON_BLOCK_START, &params))
}

} // verus!
