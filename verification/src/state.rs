//! Account state as the execution layer hands it over: account information,
//! storage slots and the changes that a block made to them.

use vstd::prelude::*;

use crate::primitives::{b256_eq, u256_eq, Bytecode, B256, KECCAK_EMPTY, U256};

verus! {

/// A state account: what the database keeps of it besides storage and code.
#[derive(Clone, Copy, Debug, Default, PartialEq, Eq)]
pub struct Account {
    /// Number of transactions sent from the account.
    pub nonce: u64,
    /// Balance in wei.
    pub balance: U256,
    /// Hash of the account's code, `None` for an account without code.
    pub bytecode_hash: Option<B256>,
}

/// Account information as the virtual machine sees it.
#[derive(Debug)]
pub struct AccountInfo {
    /// Balance in wei.
    pub balance: U256,
    /// Number of transactions sent from the account.
    pub nonce: u64,
    /// Hash of the code, [`KECCAK_EMPTY`] for an account without code.
    pub code_hash: B256,
    /// The code, where it has been loaded.
    pub code: Option<Bytecode>,
}

impl AccountInfo {
    /// Whether both describe the same account state. Loaded code is not compared, its
    /// hash is.
    pub open spec fn same_as(self, other: AccountInfo) -> bool {
        &&& self.balance == other.balance
        &&& self.nonce == other.nonce
        &&& self.code_hash == other.code_hash
    }

    /// The account that the database keeps for this information.
    pub open spec fn account(self) -> Account {
        Account {
            nonce: self.nonce,
            balance: self.balance,
            bytecode_hash: if self.code_hash == KECCAK_EMPTY {
                None
            } else {
                Some(self.code_hash)
            },
        }
    }

    /// Whether both describe the same account state.
    pub fn is_same_as(&self, other: &AccountInfo) -> (r: bool)
        ensures
            r == self.same_as(*other),
            r <==> self.balance == other.balance && self.nonce == other.nonce && self.code_hash
                == other.code_hash,
    {
        u256_eq(&self.balance, &other.balance) && self.nonce == other.nonce && b256_eq(
            &self.code_hash,
            &other.code_hash,
        )
    }

    /// The account that the database keeps for this information.
    pub fn to_account(&self) -> (r: Account)
        ensures
            r == self.account(),
            r.nonce == self.nonce,
            r.balance == self.balance,
            self.code_hash == KECCAK_EMPTY ==> r.bytecode_hash is None,
            self.code_hash != KECCAK_EMPTY ==> r.bytecode_hash == Some(self.code_hash),
    {
        let bytecode_hash = if b256_eq(&self.code_hash, &KECCAK_EMPTY) {
            None
        } else {
            Some(self.code_hash)
        };
        Account { nonce: self.nonce, balance: self.balance, bytecode_hash }
    }
}

impl Account {
    /// The information that the virtual machine sees of this account, code not loaded.
    pub open spec fn info(self) -> AccountInfo {
        AccountInfo {
            balance: self.balance,
            nonce: self.nonce,
            code_hash: match self.bytecode_hash {
                Some(hash) => hash,
                None => KECCAK_EMPTY,
            },
            code: None,
        }
    }

    /// The information that the virtual machine sees of this account, code not loaded.
    pub fn to_info(&self) -> (r: AccountInfo)
        ensures
            r == self.info(),
            r.balance == self.balance,
            r.nonce == self.nonce,
            self.bytecode_hash is None ==> r.code_hash == KECCAK_EMPTY,
            self.bytecode_hash is Some ==> r.code_hash == self.bytecode_hash->0,
            r.code is None,
    {
        AccountInfo {
            balance: self.balance,
            nonce: self.nonce,
            code_hash: match self.bytecode_hash {
                Some(hash) => hash,
                None => KECCAK_EMPTY,
            },
            code: None,
        }
    }
}

/// Whether the original values of a bundle are known for sure.
#[derive(Clone, Copy, Debug, PartialEq, Eq, Structural)]
pub enum OriginalValuesKnown {
    /// Compare with the original values and keep what changed.
    Yes,
    /// Keep everything.
    No,
}

impl OriginalValuesKnown {
    /// Whether the original values are not known for sure.
    pub fn is_not_known(&self) -> (r: bool)
        ensures
            r == (*self is No),
    {
        match self {
            OriginalValuesKnown::Yes => false,
            OriginalValuesKnown::No => true,
        }
    }
}

/// What happened to an account since it was loaded.
#[derive(Clone, Copy, Debug, PartialEq, Eq, Structural)]
pub enum AccountStatus {
    /// Loaded, and it does not exist.
    LoadedNotExisting,
    /// Loaded, and it exists.
    Loaded,
    /// Loaded, and it is empty as EIP-161 defines it.
    LoadedEmptyEIP161,
    /// Changed in memory only.
    InMemoryChange,
    /// Changed.
    Changed,
    /// Destroyed.
    Destroyed,
    /// Destroyed and then changed.
    DestroyedChanged,
    /// Destroyed again.
    DestroyedAgain,
}

impl AccountStatus {
    /// Whether the account was destroyed at some point.
    pub open spec fn destroyed(self) -> bool {
        self is Destroyed || self is DestroyedChanged || self is DestroyedAgain
    }

    /// Whether the account was destroyed at some point.
    pub fn was_destroyed(&self) -> (r: bool)
        ensures
            r == self.destroyed(),
            r <==> *self is Destroyed || *self is DestroyedChanged || *self is DestroyedAgain,
    {
        match self {
            AccountStatus::Destroyed => true,
            AccountStatus::DestroyedChanged => true,
            AccountStatus::DestroyedAgain => true,
            _ => false,
        }
    }
}

/// A storage slot with the value before the change and the value now.
#[derive(Clone, Copy, Debug)]
pub struct StorageSlot {
    /// The value before the change.
    pub previous_or_original_value: U256,
    /// The value now.
    pub present_value: U256,
}

impl StorageSlot {
    /// Whether the value changed.
    pub fn is_changed(&self) -> (r: bool)
        ensures
            r == (self.previous_or_original_value != self.present_value),
    {
        !u256_eq(&self.previous_or_original_value, &self.present_value)
    }
}

/// The changes that a block made to one account.
#[derive(Debug)]
pub struct BundleAccount {
    /// The account now, `None` if it does not exist.
    pub info: Option<AccountInfo>,
    /// The account before the block, `None` if it did not exist.
    pub original_info: Option<AccountInfo>,
    /// The storage slots that were touched.
    pub storage: Vec<(U256, StorageSlot)>,
    /// What happened to the account.
    pub status: AccountStatus,
}

impl BundleAccount {
    /// Whether the account information differs from before the block.
    pub open spec fn info_changed(self) -> bool {
        match (self.info, self.original_info) {
            (Some(now), Some(before)) => !now.same_as(before),
            (None, None) => false,
            _ => true,
        }
    }

    /// The account that the database keeps after the block.
    pub open spec fn account(self) -> Option<Account> {
        match self.info {
            Some(info) => Some(info.account()),
            None => None,
        }
    }

    /// Whether the account was destroyed at some point.
    pub fn was_destroyed(&self) -> (r: bool)
        ensures
            r == self.status.destroyed(),
            r <==> self.status is Destroyed || self.status is DestroyedChanged || self.status
                is DestroyedAgain,
    {
        self.status.was_destroyed()
    }

    /// Whether the account information differs from before the block.
    pub fn is_info_changed(&self) -> (r: bool)
        ensures
            r == self.info_changed(),
            self.info is Some != self.original_info is Some ==> r,
            self.info is None && self.original_info is None ==> !r,
            self.info is Some && self.original_info is Some ==> (r <==> {
                ||| self.info->0.balance != self.original_info->0.balance
                ||| self.info->0.nonce != self.original_info->0.nonce
                ||| self.info->0.code_hash != self.original_info->0.code_hash
            }),
    {
        match (&self.info, &self.original_info) {
            (Some(now), Some(before)) => !now.is_same_as(before),
            (None, None) => false,
            _ => true,
        }
    }
}

/// Reading an account back as account information keeps balance, nonce and code hash.
pub proof fn law_account_info_round_trip(info: AccountInfo)
    ensures
        info.account().info().same_as(info),
{
}

/// An account changed if its balance, its nonce or its code hash did, or if it came into being
/// or ceased to be, and not otherwise.
pub proof fn law_info_changes_with_its_fields(account: BundleAccount)
    ensures
        account.info is Some != account.original_info is Some ==> account.info_changed(),
        account.info is None && account.original_info is None ==> !account.info_changed(),
        account.info is Some && account.original_info is Some ==> (account.info_changed() <==> {
            ||| account.info->0.balance != account.original_info->0.balance
            ||| account.info->0.nonce != account.original_info->0.nonce
            ||| account.info->0.code_hash != account.original_info->0.code_hash
        }),
{
}

/// The database keeps nonce and balance of account information, and its code hash unless that
/// stands for no code. The virtual machine sees the same of an account that the database keeps.
pub proof fn law_account_keeps_fields(info: AccountInfo, account: Account)
    ensures
        info.account().nonce == info.nonce,
        info.account().balance == info.balance,
        info.account().bytecode_hash is None <==> info.code_hash == KECCAK_EMPTY,
        info.account().bytecode_hash matches Some(hash) ==> hash == info.code_hash,
        account.info().nonce == account.nonce,
        account.info().balance == account.balance,
        account.bytecode_hash matches Some(hash) ==> account.info().code_hash == hash,
        account.bytecode_hash is None ==> account.info().code_hash == KECCAK_EMPTY,
        account.info().code is None,
{
}

} // verus!
