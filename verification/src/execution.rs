//! Blocks, transactions and the outcome of executing them.

use vstd::prelude::*;

use crate::primitives::{
    Address, B256, BEACON_NONCE, EMPTY_OMMER_ROOT_HASH, EMPTY_ROOT_HASH, U256, U256_ZERO, ZERO_HASH,
};

verus! {

/// The state changes of a whole block, as the `revm_database` crate collects them. They are
/// carried through as they are.
#[verifier::external_type_specification]
#[verifier::external_body]
pub struct ExBundleState(revm_database::BundleState);

/// Why the virtual machine halted, as the `revm` crate tells it. It is carried through as it
/// is.
#[verifier::external_type_specification]
#[verifier::external_body]
pub struct ExHaltReason(revm::context_interface::result::HaltReason);

/// The address of all zeros.
pub const ZERO_ADDRESS: Address = [0, 0, 0, 0, 0, 0, 0, 0, 0, 0, 0, 0, 0, 0, 0, 0, 0, 0, 0, 0];

/// An event that a contract emitted.
#[derive(Debug)]
pub struct Log {
    /// The contract that emitted the event.
    pub address: Address,
    /// The indexed values.
    pub topics: Vec<B256>,
    /// The encoded values that are not indexed.
    pub data: Vec<u8>,
}

/// How a successful execution ended.
#[derive(Clone, Copy, Debug, PartialEq, Eq, Structural)]
pub enum SuccessReason {
    /// The code stopped.
    Stop,
    /// The code returned.
    Return,
    /// The contract destroyed itself.
    SelfDestruct,
}

/// What a successful execution gave back.
#[derive(Debug)]
pub enum Output {
    /// The result of a call.
    Call(Vec<u8>),
    /// The code of a created contract, and its address.
    Create(Vec<u8>, Option<Address>),
}

/// The outcome of executing a transaction.
#[derive(Debug)]
pub enum ExecutionResult {
    /// The transaction succeeded.
    Success {
        /// How it ended.
        reason: SuccessReason,
        /// Gas used.
        gas_used: u64,
        /// Gas refunded.
        gas_refunded: u64,
        /// Events emitted.
        logs: Vec<Log>,
        /// What it gave back.
        output: Output,
    },
    /// The transaction reverted.
    Revert {
        /// Gas used.
        gas_used: u64,
        /// What it gave back.
        output: Vec<u8>,
    },
    /// The virtual machine halted.
    Halt {
        /// Why it halted.
        reason: revm::context_interface::result::HaltReason,
        /// Gas used.
        gas_used: u64,
    },
}

impl ExecutionResult {
    /// The gas that the transaction used.
    pub open spec fn gas(self) -> u64 {
        match self {
            ExecutionResult::Success { gas_used, .. } => gas_used,
            ExecutionResult::Revert { gas_used, .. } => gas_used,
            ExecutionResult::Halt { gas_used, .. } => gas_used,
        }
    }

    /// The events that took effect: those of a successful transaction.
    pub open spec fn events(self) -> Seq<Log> {
        match self {
            ExecutionResult::Success { logs, .. } => logs@,
            _ => Seq::empty(),
        }
    }

    /// The gas that the transaction used.
    pub fn gas_used(&self) -> (r: u64)
        ensures
            r == self.gas(),
            *self matches ExecutionResult::Success { gas_used, .. } ==> r == gas_used,
            *self matches ExecutionResult::Revert { gas_used, .. } ==> r == gas_used,
            *self matches ExecutionResult::Halt { gas_used, .. } ==> r == gas_used,
    {
        match self {
            ExecutionResult::Success { gas_used, .. } => *gas_used,
            ExecutionResult::Revert { gas_used, .. } => *gas_used,
            ExecutionResult::Halt { gas_used, .. } => *gas_used,
        }
    }

    /// Whether the transaction succeeded.
    pub fn is_success(&self) -> (r: bool)
        ensures
            r == (*self is Success),
    {
        match self {
            ExecutionResult::Success { .. } => true,
            _ => false,
        }
    }

    /// The events that took effect.
    pub fn into_logs(self) -> (r: Vec<Log>)
        ensures
            r@ == self.events(),
            self matches ExecutionResult::Success { logs, .. } ==> r@ == logs@,
            self !is Success ==> r@.len() == 0,
    {
        match self {
            ExecutionResult::Success { logs, .. } => logs,
            _ => Vec::new(),
        }
    }
}

/// The type of a transaction.
#[derive(Clone, Copy, Debug, PartialEq, Eq, Structural)]
pub enum TxType {
    /// The type from before there were types.
    Legacy,
    /// With an access list.
    Eip2930,
    /// With a priority fee.
    Eip1559,
    /// With blobs.
    Eip4844,
    /// With authorizations.
    Eip7702,
}

/// Where a transaction goes.
#[derive(Clone, Copy, Debug)]
pub enum TxKind {
    /// It creates a contract.
    Create,
    /// It calls this address.
    Call(Address),
}

/// A legacy transaction.
#[derive(Debug)]
pub struct TxLegacy {
    /// The chain it is for, if it says so.
    pub chain_id: Option<u64>,
    /// How many transactions the sender sent before.
    pub nonce: u64,
    /// Price of a unit of gas, in wei.
    pub gas_price: u128,
    /// The most gas that it may use.
    pub gas_limit: u64,
    /// Where it goes.
    pub to: TxKind,
    /// How much wei it transfers.
    pub value: U256,
    /// Its input data.
    pub input: Vec<u8>,
}

/// Slots of an account that a transaction announces.
#[derive(Debug)]
pub struct AccessListItem {
    /// The account.
    pub address: Address,
    /// The slots, the most significant byte first.
    pub storage_keys: Vec<B256>,
}

/// A transaction with an access list.
#[derive(Debug)]
pub struct TxEip2930 {
    /// The chain it is for.
    pub chain_id: u64,
    /// How many transactions the sender sent before.
    pub nonce: u64,
    /// Price of a unit of gas, in wei.
    pub gas_price: u128,
    /// The most gas that it may use.
    pub gas_limit: u64,
    /// Where it goes.
    pub to: TxKind,
    /// How much wei it transfers.
    pub value: U256,
    /// What it announces to touch.
    pub access_list: Vec<AccessListItem>,
    /// Its input data.
    pub input: Vec<u8>,
}

/// A transaction with a priority fee.
#[derive(Debug)]
pub struct TxEip1559 {
    /// The chain it is for.
    pub chain_id: u64,
    /// How many transactions the sender sent before.
    pub nonce: u64,
    /// The most gas that it may use.
    pub gas_limit: u64,
    /// The most that it pays for a unit of gas, in wei.
    pub max_fee_per_gas: u128,
    /// The most of it that goes to the proposer.
    pub max_priority_fee_per_gas: u128,
    /// Where it goes.
    pub to: TxKind,
    /// How much wei it transfers.
    pub value: U256,
    /// What it announces to touch.
    pub access_list: Vec<AccessListItem>,
    /// Its input data.
    pub input: Vec<u8>,
}

/// A transaction with blobs.
#[derive(Debug)]
pub struct TxEip4844 {
    /// The chain it is for.
    pub chain_id: u64,
    /// How many transactions the sender sent before.
    pub nonce: u64,
    /// The most gas that it may use.
    pub gas_limit: u64,
    /// The most that it pays for a unit of gas, in wei.
    pub max_fee_per_gas: u128,
    /// The most of it that goes to the proposer.
    pub max_priority_fee_per_gas: u128,
    /// The address it calls.
    pub to: Address,
    /// How much wei it transfers.
    pub value: U256,
    /// What it announces to touch.
    pub access_list: Vec<AccessListItem>,
    /// Hashes of its blobs.
    pub blob_versioned_hashes: Vec<B256>,
    /// The most that it pays for a unit of blob gas, in wei.
    pub max_fee_per_blob_gas: u128,
    /// Its input data.
    pub input: Vec<u8>,
}

/// An account lets its code be set, with its signature.
#[derive(Clone, Copy, Debug)]
pub struct SignedAuthorization {
    /// The chain it is for, zero for any.
    pub chain_id: U256,
    /// Where the code comes from.
    pub address: Address,
    /// The nonce of the account.
    pub nonce: u64,
    /// The parity of the `y` value of the signature.
    pub y_parity: u8,
    /// The `r` value of the signature.
    pub r: U256,
    /// The `s` value of the signature.
    pub s: U256,
}

/// A transaction with authorizations.
#[derive(Debug)]
pub struct TxEip7702 {
    /// The chain it is for.
    pub chain_id: u64,
    /// How many transactions the sender sent before.
    pub nonce: u64,
    /// The most gas that it may use.
    pub gas_limit: u64,
    /// The most that it pays for a unit of gas, in wei.
    pub max_fee_per_gas: u128,
    /// The most of it that goes to the proposer.
    pub max_priority_fee_per_gas: u128,
    /// The address it calls.
    pub to: Address,
    /// How much wei it transfers.
    pub value: U256,
    /// What it announces to touch.
    pub access_list: Vec<AccessListItem>,
    /// Its authorizations.
    pub authorization_list: Vec<SignedAuthorization>,
    /// Its input data.
    pub input: Vec<u8>,
}

/// A transaction.
#[derive(Debug)]
pub enum Transaction {
    /// A legacy transaction.
    Legacy(TxLegacy),
    /// A transaction with an access list.
    Eip2930(TxEip2930),
    /// A transaction with a priority fee.
    Eip1559(TxEip1559),
    /// A transaction with blobs.
    Eip4844(TxEip4844),
    /// A transaction with authorizations.
    Eip7702(TxEip7702),
}

/// A signature over a transaction.
#[derive(Clone, Copy, Debug)]
pub struct Signature {
    /// The `r` value.
    pub r: U256,
    /// The `s` value.
    pub s: U256,
    /// The parity of the `y` value.
    pub y_parity: bool,
}

/// A transaction with its signature.
#[derive(Debug)]
pub struct TransactionSigned {
    /// The transaction.
    pub transaction: Transaction,
    /// The signature.
    pub signature: Signature,
}

impl TransactionSigned {
    /// The type of the transaction.
    pub open spec fn kind(self) -> TxType {
        match self.transaction {
            Transaction::Legacy(_) => TxType::Legacy,
            Transaction::Eip2930(_) => TxType::Eip2930,
            Transaction::Eip1559(_) => TxType::Eip1559,
            Transaction::Eip4844(_) => TxType::Eip4844,
            Transaction::Eip7702(_) => TxType::Eip7702,
        }
    }

    /// The type of the transaction.
    pub fn tx_type(&self) -> (r: TxType)
        ensures
            r == self.kind(),
            r is Legacy <==> self.transaction is Legacy,
            r is Eip2930 <==> self.transaction is Eip2930,
            r is Eip1559 <==> self.transaction is Eip1559,
            r is Eip4844 <==> self.transaction is Eip4844,
            r is Eip7702 <==> self.transaction is Eip7702,
    {
        match &self.transaction {
            Transaction::Legacy(_) => TxType::Legacy,
            Transaction::Eip2930(_) => TxType::Eip2930,
            Transaction::Eip1559(_) => TxType::Eip1559,
            Transaction::Eip4844(_) => TxType::Eip4844,
            Transaction::Eip7702(_) => TxType::Eip7702,
        }
    }
}

/// A block header.
#[derive(Debug)]
pub struct Header {
    /// Hash of the parent block.
    pub parent_hash: B256,
    /// Hash of the ommers.
    pub ommers_hash: B256,
    /// Who gets the fees.
    pub beneficiary: Address,
    /// Root of the state trie.
    pub state_root: B256,
    /// Root of the transactions.
    pub transactions_root: B256,
    /// Root of the receipts.
    pub receipts_root: B256,
    /// Bloom filter over the logs.
    pub logs_bloom: [u8; 256],
    /// Difficulty, zero since the merge.
    pub difficulty: U256,
    /// Number of the block.
    pub number: u64,
    /// The most gas that the block may use.
    pub gas_limit: u64,
    /// Gas used.
    pub gas_used: u64,
    /// Seconds since the epoch.
    pub timestamp: u64,
    /// Data without meaning.
    pub extra_data: Vec<u8>,
    /// Randomness.
    pub mix_hash: B256,
    /// Nonce, zero since the merge.
    pub nonce: [u8; 8],
    /// Base fee per unit of gas.
    pub base_fee_per_gas: Option<u64>,
    /// Root of the withdrawals.
    pub withdrawals_root: Option<B256>,
    /// Blob gas used.
    pub blob_gas_used: Option<u64>,
    /// Blob gas in excess of the target.
    pub excess_blob_gas: Option<u64>,
    /// Root of the parent beacon block.
    pub parent_beacon_block_root: Option<B256>,
    /// Hash of the requests.
    pub requests_hash: Option<B256>,
}

impl Header {
    /// Whether every field has the value that it has in a header that nothing was put into.
    pub open spec fn is_empty_header(self) -> bool {
        &&& self.beneficiary == ZERO_ADDRESS
        &&& self.mix_hash == ZERO_HASH
        &&& self.number == 0
        &&& self.gas_limit == 0
        &&& self.gas_used == 0
        &&& self.timestamp == 0
        &&& self.base_fee_per_gas is None
        &&& self.withdrawals_root is None
        &&& self.blob_gas_used is None
        &&& self.excess_blob_gas is None
        &&& self.parent_beacon_block_root is None
        &&& self.has_default_roots()
    }

    /// Whether the fields that are filled in after execution, and those that no longer mean
    /// anything, have the values of a header that nothing was put into.
    pub open spec fn has_default_roots(self) -> bool {
        &&& self.parent_hash == ZERO_HASH
        &&& self.ommers_hash == EMPTY_OMMER_ROOT_HASH
        &&& self.state_root == EMPTY_ROOT_HASH
        &&& self.transactions_root == EMPTY_ROOT_HASH
        &&& self.receipts_root == EMPTY_ROOT_HASH
        &&& forall|i: int| 0 <= i < 256 ==> #[trigger] self.logs_bloom[i] == 0
        &&& self.difficulty == U256_ZERO
        &&& self.extra_data@ == Seq::<u8>::empty()
        &&& self.nonce == BEACON_NONCE
        &&& self.requests_hash is None
    }
}

impl Default for Header {
    /// A header that nothing was put into.
    fn default() -> (r: Self)
        ensures
            r.is_empty_header(),
            r.beneficiary == ZERO_ADDRESS,
            r.mix_hash == ZERO_HASH,
            r.number == 0,
            r.gas_limit == 0,
            r.gas_used == 0,
            r.timestamp == 0,
            r.base_fee_per_gas is None,
            r.withdrawals_root is None,
            r.blob_gas_used is None,
            r.excess_blob_gas is None,
            r.parent_beacon_block_root is None,
            r.requests_hash is None,
            r.parent_hash == ZERO_HASH,
            r.ommers_hash == EMPTY_OMMER_ROOT_HASH,
            r.state_root == EMPTY_ROOT_HASH,
            r.transactions_root == EMPTY_ROOT_HASH,
            r.receipts_root == EMPTY_ROOT_HASH,
            forall|i: int| 0 <= i < 256 ==> #[trigger] r.logs_bloom[i] == 0,
            r.difficulty == U256_ZERO,
            r.extra_data@.len() == 0,
            r.nonce == BEACON_NONCE,
    {
        Header {
            parent_hash: ZERO_HASH,
            ommers_hash: EMPTY_OMMER_ROOT_HASH,
            beneficiary: ZERO_ADDRESS,
            state_root: EMPTY_ROOT_HASH,
            transactions_root: EMPTY_ROOT_HASH,
            receipts_root: EMPTY_ROOT_HASH,
            logs_bloom: [0;256],
            difficulty: U256_ZERO,
            number: 0,
            gas_limit: 0,
            gas_used: 0,
            timestamp: 0,
            extra_data: Vec::new(),
            mix_hash: ZERO_HASH,
            nonce: BEACON_NONCE,
            base_fee_per_gas: None,
            withdrawals_root: None,
            blob_gas_used: None,
            excess_blob_gas: None,
            parent_beacon_block_root: None,
            requests_hash: None,
        }
    }
}

/// A withdrawal from the beacon chain.
#[derive(Clone, Copy, Debug)]
pub struct Withdrawal {
    /// Index of the withdrawal.
    pub index: u64,
    /// Index of the validator.
    pub validator_index: u64,
    /// Who gets the amount.
    pub address: Address,
    /// The amount in gwei.
    pub amount: u64,
}

/// A block body.
#[derive(Debug)]
pub struct BlockBody {
    /// The transactions, in order.
    pub transactions: Vec<TransactionSigned>,
    /// The ommers.
    pub ommers: Vec<Header>,
    /// The withdrawals, where the block can have any.
    pub withdrawals: Option<Vec<Withdrawal>>,
}

/// A block.
#[derive(Debug)]
pub struct Block {
    /// The header.
    pub header: Header,
    /// The body.
    pub body: BlockBody,
}

/// What is known of an executed transaction.
#[derive(Debug)]
pub struct Receipt {
    /// The type of the transaction.
    pub tx_type: TxType,
    /// Whether the transaction counts as successful.
    pub success: bool,
    /// Gas used in the block up to and including the transaction.
    pub cumulative_gas_used: u64,
    /// Events emitted.
    pub logs: Vec<Log>,
}

/// The outcome of executing the transactions of a block.
#[derive(Debug)]
pub struct BlockExecutionResult {
    /// A receipt for each transaction, in order.
    pub receipts: Vec<Receipt>,
    /// The encoded requests.
    pub requests: Vec<Vec<u8>>,
    /// Gas used.
    pub gas_used: u64,
}

/// The outcome of executing a block, with its state changes.
#[derive(Debug)]
pub struct BlockExecutionOutput {
    /// The outcome.
    pub result: BlockExecutionResult,
    /// The state changes.
    pub state: revm_database::BundleState,
}

/// What a block tells the consensus layer.
#[derive(Debug)]
pub enum GravityEvent {
    /// A new epoch starts, with this encoded validator set.
    NewEpoch(u64, Vec<u8>),
}

/// An executed block. `Info` is what is kept of each user transaction.
#[derive(Debug)]
pub struct ExecuteOrderedBlockResult<Info> {
    /// The block.
    pub block: Block,
    /// The sender of each transaction, in order.
    pub senders: Vec<Address>,
    /// The outcome of executing it.
    pub execution_output: BlockExecutionOutput,
    /// What is kept of each user transaction.
    pub txs_info: Vec<Info>,
    /// What the block tells the consensus layer.
    pub gravity_events: Vec<GravityEvent>,
    /// The epoch of the block.
    pub epoch: u64,
}

/// A block as consensus ordered it, as far as its header depends on it.
#[derive(Clone, Copy, Debug)]
pub struct OrderedBlock {
    /// The epoch of the block.
    pub epoch: u64,
    /// Identifier of the parent block.
    pub parent_id: B256,
    /// Number of the block.
    pub number: u64,
    /// Microseconds since the epoch.
    pub timestamp_us: u64,
    /// Who gets the fees.
    pub coinbase: Address,
    /// Randomness.
    pub prev_randao: B256,
}

/// When the forks of a chain become active, in seconds since the epoch. `None` is never.
#[derive(Clone, Copy, Debug)]
pub struct ChainSpec {
    /// When Shanghai becomes active.
    pub shanghai_time: Option<u64>,
    /// When Cancun becomes active.
    pub cancun_time: Option<u64>,
}

impl ChainSpec {
    /// Whether a fork that becomes active at `time` is active at `timestamp`.
    pub open spec fn active_at(time: Option<u64>, timestamp: u64) -> bool {
        time matches Some(t) && timestamp >= t
    }

    /// Whether Shanghai is active at `timestamp`.
    pub fn is_shanghai_active_at_timestamp(&self, timestamp: u64) -> (r: bool)
        ensures
            r == Self::active_at(self.shanghai_time, timestamp),
            self.shanghai_time matches Some(time) ==> (r <==> timestamp >= time),
            self.shanghai_time is None ==> !r,
    {
        match self.shanghai_time {
            Some(time) => timestamp >= time,
            None => false,
        }
    }

    /// Whether Cancun is active at `timestamp`.
    pub fn is_cancun_active_at_timestamp(&self, timestamp: u64) -> (r: bool)
        ensures
            r == Self::active_at(self.cancun_time, timestamp),
            self.cancun_time matches Some(time) ==> (r <==> timestamp >= time),
            self.cancun_time is None ==> !r,
    {
        match self.cancun_time {
            Some(time) => timestamp >= time,
            None => false,
        }
    }
}

/// A fork is active from its time on: at every timestamp that is not before it, and at no
/// earlier one. A fork that is active stays so. One without a time never becomes active.
pub proof fn law_forks_stay_active(time: u64, timestamp: u64, later: u64)
    ensures
        timestamp >= time ==> ChainSpec::active_at(Some(time), timestamp),
        timestamp < time ==> !ChainSpec::active_at(Some(time), timestamp),
        ChainSpec::active_at(Some(time), timestamp) && timestamp <= later ==> ChainSpec::active_at(
            Some(time),
            later,
        ),
        !ChainSpec::active_at(None, timestamp),
{
}

/// However a transaction ended, the gas that it used is the gas of its outcome. Its events take
/// effect, in order, where it succeeded, and otherwise none do.
pub proof fn law_outcome_has_its_gas_and_events(result: ExecutionResult)
    ensures
        result matches ExecutionResult::Success { gas_used, logs, .. } ==> {
            &&& result.gas() == gas_used
            &&& result.events() == logs@
        },
        result matches ExecutionResult::Revert { gas_used, .. } ==> {
            &&& result.gas() == gas_used
            &&& result.events().len() == 0
        },
        result matches ExecutionResult::Halt { gas_used, .. } ==> {
            &&& result.gas() == gas_used
            &&& result.events().len() == 0
        },
{
}

/// The type of a transaction tells what it holds.
pub proof fn law_type_tells_transaction(txn: TransactionSigned)
    ensures
        txn.kind() is Legacy <==> txn.transaction is Legacy,
        txn.kind() is Eip2930 <==> txn.transaction is Eip2930,
        txn.kind() is Eip1559 <==> txn.transaction is Eip1559,
        txn.kind() is Eip4844 <==> txn.transaction is Eip4844,
        txn.kind() is Eip7702 <==> txn.transaction is Eip7702,
{
}

/// Settings of the pipeline.
#[derive(Clone, Copy, Debug)]
pub struct GravityConfig {
    /// The most gas that a block may use.
    pub pipe_block_gas_limit: u64,
    /// How many entries the cache may hold before it forgets persisted ones.
    pub cache_capacity: u64,
    /// How far persistence may lag behind execution.
    pub cache_max_persist_gap: u64,
}

} // verus!
