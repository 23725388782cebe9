//! What the fetchers of on-chain configuration have in common.

use vstd::prelude::*;

use crate::primitives::Address;

verus! {

/// Where the system contracts live, and who calls them.
#[derive(Clone, Copy, Debug)]
pub struct SystemAddresses {
    /// The sender of every system call.
    pub system_caller: Address,
    /// The contract that is told of every block.
    pub block: Address,
    /// The contract that holds the consensus configuration.
    pub consensus_config: Address,
    /// The contract that holds the randomness configuration.
    pub randomness_config: Address,
    /// The contract that holds the state of distributed key generation.
    pub dkg: Address,
    /// The contract that ends an epoch with the result of distributed key generation.
    pub reconfiguration_with_dkg: Address,
    /// The contract that manages the validators.
    pub validator_manager: Address,
}

/// What every fetcher needs: a way to call contracts, and where they live.
#[derive(Debug)]
pub struct OnchainConfigFetcher<EthApi> {
    /// Calls contracts.
    pub eth_api: EthApi,
    /// Where the contracts live.
    pub addresses: SystemAddresses,
}

/// A contract call that changes nothing.
#[derive(Debug)]
pub struct CallRequest {
    /// Who calls.
    pub from: Address,
    /// The contract.
    pub to: Address,
    /// The call data.
    pub input: Vec<u8>,
}

/// What a fetcher came to.
#[derive(Debug)]
pub enum Fetched {
    /// The configuration, encoded for the consensus layer.
    Config(Vec<u8>),
    /// The call failed, or its result could not be decoded.
    Unavailable,
    /// The contract returned something that must not occur: an unknown enum value, or lists
    /// too long to be encoded.
    Invalid,
}

/// The model of a [`Fetched`].
#[verifier::ext_equal]
pub enum FetchedView {
    Config(Seq<u8>),
    Unavailable,
    Invalid,
}

impl View for Fetched {
    type V = FetchedView;

    open spec fn view(&self) -> FetchedView {
        match self {
            Fetched::Config(bytes) => FetchedView::Config(bytes@),
            Fetched::Unavailable => FetchedView::Unavailable,
            Fetched::Invalid => FetchedView::Invalid,
        }
    }
}

} // verus!
