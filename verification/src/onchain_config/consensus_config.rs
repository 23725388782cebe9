//! Fetching the consensus configuration.

use vstd::prelude::*;

use super::abi;
use super::abi::{decode_bytes, selector_only, GET_CURRENT_CONFIG};
use super::base::{CallRequest, OnchainConfigFetcher};
use crate::primitives::Address;

verus! {

/// Fetches the consensus configuration.
#[derive(Debug)]
pub struct ConsensusConfigFetcher<'a, EthApi> {
    /// What every fetcher needs.
    pub base_fetcher: &'a OnchainConfigFetcher<EthApi>,
}

/// The configuration in what the contract replied, `None` if it did not reply or the reply
/// does not decode.
pub open spec fn fetched_consensus_config(reply: Option<Seq<u8>>) -> Option<Seq<u8>> {
    match reply {
        Some(data) => abi::returned_bytes(data),
        None => None,
    }
}

impl<'a, EthApi> ConsensusConfigFetcher<'a, EthApi> {
    /// A fetcher that shares `base_fetcher`.
    pub fn new(base_fetcher: &'a OnchainConfigFetcher<EthApi>) -> (r: Self)
        ensures
            r.base_fetcher == base_fetcher,
    {
        ConsensusConfigFetcher { base_fetcher }
    }

    /// The contract that holds the configuration.
    pub fn contract_address(&self) -> (r: Address)
        ensures
            r == self.base_fetcher.addresses.consensus_config,
    {
        self.base_fetcher.addresses.consensus_config
    }

    /// Who asks for it.
    pub fn caller_address(&self) -> (r: Address)
        ensures
            r == self.base_fetcher.addresses.system_caller,
    {
        self.base_fetcher.addresses.system_caller
    }

    /// The call that asks for the configuration.
    pub fn request(&self) -> (r: CallRequest)
        ensures
            r.from == self.base_fetcher.addresses.system_caller,
            r.to == self.base_fetcher.addresses.consensus_config,
            r.input@ == GET_CURRENT_CONFIG@,
    {
        CallRequest {
            from: self.caller_address(),
            to: self.contract_address(),
            input: selector_only(GET_CURRENT_CONFIG),
        }
    }

    /// The configuration from what the contract replied, `None` if it did not reply or the
    /// reply does not decode. The configuration is handed on as the contract holds it.
    pub fn fetch(&self, reply: Option<Vec<u8>>) -> (r: Option<Vec<u8>>)
        ensures
            abi::bytes_of(r) == fetched_consensus_config(abi::bytes_of(reply)),
    {
        match reply {
            Some(data) => decode_bytes(&data),
            None => None,
        }
    }
}

/// What is fetched is what the contract returned.
pub proof fn law_fetches_what_was_returned(config: Seq<u8>)
    requires
        config.len() <= u64::MAX,
    ensures
        fetched_consensus_config(Some(abi::encoded_bytes(config))) == Some(config),
{
    abi::law_bytes_read_back(config);
}

/// What is fetched is what the reply holds, whatever it is. Without a reply nothing is.
pub proof fn law_fetches_what_reply_holds(reply: Option<Seq<u8>>)
    ensures
        reply is None ==> fetched_consensus_config(reply) is None,
        reply matches Some(data) ==> fetched_consensus_config(reply) == abi::returned_bytes(data),
{
}

} // verus!
