//! Transactions as the virtual machine takes them.

use vstd::prelude::*;

use crate::execution::{AccessListItem, SignedAuthorization, Transaction, TransactionSigned, TxKind};
use crate::primitives::{copy_bytes, Address, B256, U256};

verus! {

/// A transaction as the virtual machine takes it.
#[derive(Debug)]
pub struct TxEnv {
    /// The number of its type.
    pub tx_type: u8,
    /// Who sends it.
    pub caller: Address,
    /// The most gas that it may use.
    pub gas_limit: u64,
    /// The most that it pays for a unit of gas, in wei.
    pub gas_price: u128,
    /// Where it goes.
    pub kind: TxKind,
    /// How much wei it transfers.
    pub value: U256,
    /// Its input data.
    pub data: Vec<u8>,
    /// How many transactions the sender sent before.
    pub nonce: u64,
    /// The chain it is for, if it says so.
    pub chain_id: Option<u64>,
    /// What it announces to touch.
    pub access_list: Vec<AccessListItem>,
    /// The most of the price that goes to the proposer, if it says so.
    pub gas_priority_fee: Option<u128>,
    /// Hashes of its blobs.
    pub blob_hashes: Vec<B256>,
    /// The most that it pays for a unit of blob gas, in wei.
    pub max_fee_per_blob_gas: u128,
    /// Its authorizations.
    pub authorization_list: Vec<SignedAuthorization>,
}

/// The model of a [`TxEnv`].
#[verifier::ext_equal]
pub struct TxEnvView {
    pub tx_type: u8,
    pub caller: Address,
    pub gas_limit: u64,
    pub gas_price: u128,
    pub kind: TxKind,
    pub value: U256,
    pub data: Seq<u8>,
    pub nonce: u64,
    pub chain_id: Option<u64>,
    pub access_list: Seq<(Address, Seq<B256>)>,
    pub gas_priority_fee: Option<u128>,
    pub blob_hashes: Seq<B256>,
    pub max_fee_per_blob_gas: u128,
    pub authorization_list: Seq<SignedAuthorization>,
}

/// The addresses of an access list, each with its slots.
pub open spec fn access_list_view(list: Seq<AccessListItem>) -> Seq<(Address, Seq<B256>)> {
    list.map_values(|item: AccessListItem| (item.address, item.storage_keys@))
}

impl View for TxEnv {
    type V = TxEnvView;

    open spec fn view(&self) -> TxEnvView {
        TxEnvView {
            tx_type: self.tx_type,
            caller: self.caller,
            gas_limit: self.gas_limit,
            gas_price: self.gas_price,
            kind: self.kind,
            value: self.value,
            data: self.data@,
            nonce: self.nonce,
            chain_id: self.chain_id,
            access_list: access_list_view(self.access_list@),
            gas_priority_fee: self.gas_priority_fee,
            blob_hashes: self.blob_hashes@,
            max_fee_per_blob_gas: self.max_fee_per_blob_gas,
            authorization_list: self.authorization_list@,
        }
    }
}

/// What the virtual machine is given for `transaction` sent by `caller`. What a type of
/// transaction does not have is empty, zero or `None`.
pub open spec fn env_of(transaction: Transaction, caller: Address) -> TxEnvView {
    match transaction {
        Transaction::Legacy(tx) => TxEnvView {
            tx_type: 0,
            caller,
            gas_limit: tx.gas_limit,
            gas_price: tx.gas_price,
            kind: tx.to,
            value: tx.value,
            data: tx.input@,
            nonce: tx.nonce,
            chain_id: tx.chain_id,
            access_list: Seq::empty(),
            gas_priority_fee: None,
            blob_hashes: Seq::empty(),
            max_fee_per_blob_gas: 0,
            authorization_list: Seq::empty(),
        },
        Transaction::Eip2930(tx) => TxEnvView {
            tx_type: 1,
            caller,
            gas_limit: tx.gas_limit,
            gas_price: tx.gas_price,
            kind: tx.to,
            value: tx.value,
            data: tx.input@,
            nonce: tx.nonce,
            chain_id: Some(tx.chain_id),
            access_list: access_list_view(tx.access_list@),
            gas_priority_fee: None,
            blob_hashes: Seq::empty(),
            max_fee_per_blob_gas: 0,
            authorization_list: Seq::empty(),
        },
        Transaction::Eip1559(tx) => TxEnvView {
            tx_type: 2,
            caller,
            gas_limit: tx.gas_limit,
            gas_price: tx.max_fee_per_gas,
            kind: tx.to,
            value: tx.value,
            data: tx.input@,
            nonce: tx.nonce,
            chain_id: Some(tx.chain_id),
            access_list: access_list_view(tx.access_list@),
            gas_priority_fee: Some(tx.max_priority_fee_per_gas),
            blob_hashes: Seq::empty(),
            max_fee_per_blob_gas: 0,
            authorization_list: Seq::empty(),
        },
        Transaction::Eip4844(tx) => TxEnvView {
            tx_type: 3,
            caller,
            gas_limit: tx.gas_limit,
            gas_price: tx.max_fee_per_gas,
            kind: TxKind::Call(tx.to),
            value: tx.value,
            data: tx.input@,
            nonce: tx.nonce,
            chain_id: Some(tx.chain_id),
            access_list: access_list_view(tx.access_list@),
            gas_priority_fee: Some(tx.max_priority_fee_per_gas),
            blob_hashes: tx.blob_versioned_hashes@,
            max_fee_per_blob_gas: tx.max_fee_per_blob_gas,
            authorization_list: Seq::empty(),
        },
        Transaction::Eip7702(tx) => TxEnvView {
            tx_type: 4,
            caller,
            gas_limit: tx.gas_limit,
            gas_price: tx.max_fee_per_gas,
            kind: TxKind::Call(tx.to),
            value: tx.value,
            data: tx.input@,
            nonce: tx.nonce,
            chain_id: Some(tx.chain_id),
            access_list: access_list_view(tx.access_list@),
            gas_priority_fee: Some(tx.max_priority_fee_per_gas),
            blob_hashes: Seq::empty(),
            max_fee_per_blob_gas: 0,
            authorization_list: tx.authorization_list@,
        },
    }
}

/// The virtual machine is given what the transaction holds, under the number of its type, with
/// the caller as the sender. A priority fee, blobs and authorizations are there for the types
/// that have them, and for no other.
pub proof fn law_env_has_what_transaction_holds(transaction: Transaction, caller: Address)
    ensures
        env_of(transaction, caller).caller == caller,
        ({
            let env = env_of(transaction, caller);
            transaction matches Transaction::Legacy(tx) ==> {
                &&& env.tx_type == 0
                &&& env.gas_limit == tx.gas_limit
                &&& env.gas_price == tx.gas_price
                &&& env.kind == tx.to
                &&& env.value == tx.value
                &&& env.data == tx.input@
                &&& env.nonce == tx.nonce
                &&& env.chain_id == tx.chain_id
                &&& env.access_list.len() == 0
                &&& env.gas_priority_fee is None
                &&& env.blob_hashes.len() == 0
                &&& env.max_fee_per_blob_gas == 0
                &&& env.authorization_list.len() == 0
            }
        }),
        ({
            let env = env_of(transaction, caller);
            transaction matches Transaction::Eip2930(tx) ==> {
                &&& env.tx_type == 1
                &&& env.gas_limit == tx.gas_limit
                &&& env.gas_price == tx.gas_price
                &&& env.kind == tx.to
                &&& env.value == tx.value
                &&& env.data == tx.input@
                &&& env.nonce == tx.nonce
                &&& env.chain_id == Some(tx.chain_id)
                &&& env.access_list.len() == tx.access_list@.len()
                &&& forall|i: int| 0 <= i < tx.access_list@.len() ==> {
                    &&& (#[trigger] env.access_list[i]).0 == tx.access_list@[i].address
                    &&& env.access_list[i].1 == tx.access_list@[i].storage_keys@
                }
                &&& env.gas_priority_fee is None
                &&& env.blob_hashes.len() == 0
                &&& env.max_fee_per_blob_gas == 0
                &&& env.authorization_list.len() == 0
            }
        }),
        ({
            let env = env_of(transaction, caller);
            transaction matches Transaction::Eip1559(tx) ==> {
                &&& env.tx_type == 2
                &&& env.gas_limit == tx.gas_limit
                &&& env.gas_price == tx.max_fee_per_gas
                &&& env.kind == tx.to
                &&& env.value == tx.value
                &&& env.data == tx.input@
                &&& env.nonce == tx.nonce
                &&& env.chain_id == Some(tx.chain_id)
                &&& env.access_list.len() == tx.access_list@.len()
                &&& forall|i: int| 0 <= i < tx.access_list@.len() ==> {
                    &&& (#[trigger] env.access_list[i]).0 == tx.access_list@[i].address
                    &&& env.access_list[i].1 == tx.access_list@[i].storage_keys@
                }
                &&& env.gas_priority_fee == Some(tx.max_priority_fee_per_gas)
                &&& env.blob_hashes.len() == 0
                &&& env.max_fee_per_blob_gas == 0
                &&& env.authorization_list.len() == 0
            }
        }),
        ({
            let env = env_of(transaction, caller);
            transaction matches Transaction::Eip4844(tx) ==> {
                &&& env.tx_type == 3
                &&& env.gas_limit == tx.gas_limit
                &&& env.gas_price == tx.max_fee_per_gas
                &&& env.kind == TxKind::Call(tx.to)
                &&& env.value == tx.value
                &&& env.data == tx.input@
                &&& env.nonce == tx.nonce
                &&& env.chain_id == Some(tx.chain_id)
                &&& env.access_list.len() == tx.access_list@.len()
                &&& forall|i: int| 0 <= i < tx.access_list@.len() ==> {
                    &&& (#[trigger] env.access_list[i]).0 == tx.access_list@[i].address
                    &&& env.access_list[i].1 == tx.access_list@[i].storage_keys@
                }
                &&& env.gas_priority_fee == Some(tx.max_priority_fee_per_gas)
                &&& env.blob_hashes == tx.blob_versioned_hashes@
                &&& env.max_fee_per_blob_gas == tx.max_fee_per_blob_gas
                &&& env.authorization_list.len() == 0
            }
        }),
        ({
            let env = env_of(transaction, caller);
            transaction matches Transaction::Eip7702(tx) ==> {
                &&& env.tx_type == 4
                &&& env.gas_limit == tx.gas_limit
                &&& env.gas_price == tx.max_fee_per_gas
                &&& env.kind == TxKind::Call(tx.to)
                &&& env.value == tx.value
                &&& env.data == tx.input@
                &&& env.nonce == tx.nonce
                &&& env.chain_id == Some(tx.chain_id)
                &&& env.access_list.len() == tx.access_list@.len()
                &&& forall|i: int| 0 <= i < tx.access_list@.len() ==> {
                    &&& (#[trigger] env.access_list[i]).0 == tx.access_list@[i].address
                    &&& env.access_list[i].1 == tx.access_list@[i].storage_keys@
                }
                &&& env.gas_priority_fee == Some(tx.max_priority_fee_per_gas)
                &&& env.blob_hashes.len() == 0
                &&& env.max_fee_per_blob_gas == 0
                &&& env.authorization_list == tx.authorization_list@
            }
        }),
{
}

/// A copy of `hashes`.
fn copy_hashes(hashes: &Vec<B256>) -> (r: Vec<B256>)
    ensures
        r@ == hashes@,
{
    let mut r: Vec<B256> = Vec::with_capacity(hashes.len());
    let mut i: usize = 0;
    while i < hashes.len()
        invariant
            i <= hashes.len(),
            r@ =~= hashes@.take(i as int),
        decreases hashes.len() - i,
    {
        r.push(hashes[i]);
        i += 1;
    }
    assert(r@ =~= hashes@);
    r
}

/// A copy of `authorizations`.
fn copy_authorizations(authorizations: &Vec<SignedAuthorization>) -> (r: Vec<SignedAuthorization>)
    ensures
        r@ == authorizations@,
{
    let r = authorizations.clone();
    assert(r@ =~= authorizations@);
    r
}

/// A copy of `list`.
fn copy_access_list(list: &Vec<AccessListItem>) -> (r: Vec<AccessListItem>)
    ensures
        access_list_view(r@) == access_list_view(list@),
        r@.len() == list@.len(),
        forall|i: int|
            0 <= i < list@.len() ==> (#[trigger] r@[i]).address == list@[i].address
                && r@[i].storage_keys@ == list@[i].storage_keys@,
{
    let mut r: Vec<AccessListItem> = Vec::with_capacity(list.len());
    let mut i: usize = 0;
    while i < list.len()
        invariant
            i <= list.len(),
            r@.len() == i,
            forall|j: int|
                0 <= j < i ==> (#[trigger] r@[j]).address == list@[j].address
                    && r@[j].storage_keys@ == list@[j].storage_keys@,
        decreases list.len() - i,
    {
        r.push(
            AccessListItem {
                address: list[i].address,
                storage_keys: copy_hashes(&list[i].storage_keys),
            },
        );
        i += 1;
    }
    assert(access_list_view(r@) =~= access_list_view(list@));
    r
}

/// What the virtual machine is given for `txn` sent by `caller`, whoever signed it.
pub fn tx_env(txn: &TransactionSigned, caller: Address) -> (r: TxEnv)
    ensures
        r@ == env_of(txn.transaction, caller),
        r.caller == caller,
        txn.transaction matches Transaction::Legacy(tx) ==> {
            &&& r.tx_type == 0
            &&& r.gas_limit == tx.gas_limit
            &&& r.gas_price == tx.gas_price
            &&& r.kind == tx.to
            &&& r.value == tx.value
            &&& r.data@ == tx.input@
            &&& r.nonce == tx.nonce
            &&& r.chain_id == tx.chain_id
            &&& r.access_list@.len() == 0
            &&& r.gas_priority_fee is None
            &&& r.blob_hashes@.len() == 0
            &&& r.max_fee_per_blob_gas == 0
            &&& r.authorization_list@.len() == 0
        },
        txn.transaction matches Transaction::Eip2930(tx) ==> {
            &&& r.tx_type == 1
            &&& r.gas_limit == tx.gas_limit
            &&& r.gas_price == tx.gas_price
            &&& r.kind == tx.to
            &&& r.value == tx.value
            &&& r.data@ == tx.input@
            &&& r.nonce == tx.nonce
            &&& r.chain_id == Some(tx.chain_id)
            &&& r.access_list@.len() == tx.access_list@.len()
            &&& forall|i: int| 0 <= i < tx.access_list@.len() ==> {
                &&& (#[trigger] r.access_list@[i]).address == tx.access_list@[i].address
                &&& r.access_list@[i].storage_keys@ == tx.access_list@[i].storage_keys@
            }
            &&& r.gas_priority_fee is None
            &&& r.blob_hashes@.len() == 0
            &&& r.max_fee_per_blob_gas == 0
            &&& r.authorization_list@.len() == 0
        },
        txn.transaction matches Transaction::Eip1559(tx) ==> {
            &&& r.tx_type == 2
            &&& r.gas_limit == tx.gas_limit
            &&& r.gas_price == tx.max_fee_per_gas
            &&& r.kind == tx.to
            &&& r.value == tx.value
            &&& r.data@ == tx.input@
            &&& r.nonce == tx.nonce
            &&& r.chain_id == Some(tx.chain_id)
            &&& r.access_list@.len() == tx.access_list@.len()
            &&& forall|i: int| 0 <= i < tx.access_list@.len() ==> {
                &&& (#[trigger] r.access_list@[i]).address == tx.access_list@[i].address
                &&& r.access_list@[i].storage_keys@ == tx.access_list@[i].storage_keys@
            }
            &&& r.gas_priority_fee == Some(tx.max_priority_fee_per_gas)
            &&& r.blob_hashes@.len() == 0
            &&& r.max_fee_per_blob_gas == 0
            &&& r.authorization_list@.len() == 0
        },
        txn.transaction matches Transaction::Eip4844(tx) ==> {
            &&& r.tx_type == 3
            &&& r.gas_limit == tx.gas_limit
            &&& r.gas_price == tx.max_fee_per_gas
            &&& r.kind == TxKind::Call(tx.to)
            &&& r.value == tx.value
            &&& r.data@ == tx.input@
            &&& r.nonce == tx.nonce
            &&& r.chain_id == Some(tx.chain_id)
            &&& r.access_list@.len() == tx.access_list@.len()
            &&& forall|i: int| 0 <= i < tx.access_list@.len() ==> {
                &&& (#[trigger] r.access_list@[i]).address == tx.access_list@[i].address
                &&& r.access_list@[i].storage_keys@ == tx.access_list@[i].storage_keys@
            }
            &&& r.gas_priority_fee == Some(tx.max_priority_fee_per_gas)
            &&& r.blob_hashes@ == tx.blob_versioned_hashes@
            &&& r.max_fee_per_blob_gas == tx.max_fee_per_blob_gas
            &&& r.authorization_list@.len() == 0
        },
        txn.transaction matches Transaction::Eip7702(tx) ==> {
            &&& r.tx_type == 4
            &&& r.gas_limit == tx.gas_limit
            &&& r.gas_price == tx.max_fee_per_gas
            &&& r.kind == TxKind::Call(tx.to)
            &&& r.value == tx.value
            &&& r.data@ == tx.input@
            &&& r.nonce == tx.nonce
            &&& r.chain_id == Some(tx.chain_id)
            &&& r.access_list@.len() == tx.access_list@.len()
            &&& forall|i: int| 0 <= i < tx.access_list@.len() ==> {
                &&& (#[trigger] r.access_list@[i]).address == tx.access_list@[i].address
                &&& r.access_list@[i].storage_keys@ == tx.access_list@[i].storage_keys@
            }
            &&& r.gas_priority_fee == Some(tx.max_priority_fee_per_gas)
            &&& r.blob_hashes@.len() == 0
            &&& r.max_fee_per_blob_gas == 0
            &&& r.authorization_list@ == tx.authorization_list@
        },
{
    match &txn.transaction {
        Transaction::Legacy(tx) => TxEnv {
            tx_type: 0,
            caller,
            gas_limit: tx.gas_limit,
            gas_price: tx.gas_price,
            kind: tx.to,
            value: tx.value,
            data: copy_bytes(&tx.input),
            nonce: tx.nonce,
            chain_id: tx.chain_id,
            access_list: Vec::new(),
            gas_priority_fee: None,
            blob_hashes: Vec::new(),
            max_fee_per_blob_gas: 0,
            authorization_list: Vec::new(),
        },
        Transaction::Eip2930(tx) => TxEnv {
            tx_type: 1,
            caller,
            gas_limit: tx.gas_limit,
            gas_price: tx.gas_price,
            kind: tx.to,
            value: tx.value,
            data: copy_bytes(&tx.input),
            nonce: tx.nonce,
            chain_id: Some(tx.chain_id),
            access_list: copy_access_list(&tx.access_list),
            gas_priority_fee: None,
            blob_hashes: Vec::new(),
            max_fee_per_blob_gas: 0,
            authorization_list: Vec::new(),
        },
        Transaction::Eip1559(tx) => TxEnv {
            tx_type: 2,
            caller,
            gas_limit: tx.gas_limit,
            gas_price: tx.max_fee_per_gas,
            kind: tx.to,
            value: tx.value,
            data: copy_bytes(&tx.input),
            nonce: tx.nonce,
            chain_id: Some(tx.chain_id),
            access_list: copy_access_list(&tx.access_list),
            gas_priority_fee: Some(tx.max_priority_fee_per_gas),
            blob_hashes: Vec::new(),
            max_fee_per_blob_gas: 0,
            authorization_list: Vec::new(),
        },
        Transaction::Eip4844(tx) => TxEnv {
            tx_type: 3,
            caller,
            gas_limit: tx.gas_limit,
            gas_price: tx.max_fee_per_gas,
            kind: TxKind::Call(tx.to),
            value: tx.value,
            data: copy_bytes(&tx.input),
            nonce: tx.nonce,
            chain_id: Some(tx.chain_id),
            access_list: copy_access_list(&tx.access_list),
            gas_priority_fee: Some(tx.max_priority_fee_per_gas),
            blob_hashes: copy_hashes(&tx.blob_versioned_hashes),
            max_fee_per_blob_gas: tx.max_fee_per_blob_gas,
            authorization_list: Vec::new(),
        },
        Transaction::Eip7702(tx) => TxEnv {
            tx_type: 4,
            caller,
            gas_limit: tx.gas_limit,
            gas_price: tx.max_fee_per_gas,
            kind: TxKind::Call(tx.to),
            value: tx.value,
            data: copy_bytes(&tx.input),
            nonce: tx.nonce,
            chain_id: Some(tx.chain_id),
            access_list: copy_access_list(&tx.access_list),
            gas_priority_fee: Some(tx.max_priority_fee_per_gas),
            blob_hashes: Vec::new(),
            max_fee_per_blob_gas: 0,
            authorization_list: copy_authorizations(&tx.authorization_list),
        },
    }
}

} // verus!
