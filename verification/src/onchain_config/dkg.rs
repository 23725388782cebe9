//! Distributed key generation: reading its state from the contracts, and handing it
//! to the consensus layer.

use vstd::prelude::*;

use super::abi;
use super::abi::{call_data, encode_bytes, selector_only, FINISH_TRANSITION, GET_CURRENT_CONFIG, GET_DKG_STATE};
use super::api;
use super::base::{CallRequest, Fetched, FetchedView, OnchainConfigFetcher, SystemAddresses};
use super::metadata_txn;
use super::metadata_txn::new_system_call_txn;
use super::read_back;
use super::types;
use super::types::{
    decode_dkg_state, decode_randomness_config, ConfigV2Data, ConfigVariant, DKGSessionInfo,
    DKGSessionMetadata, DKGStartEvent, GetDKGStateReturn, RandomnessConfigData,
    ValidatorConsensusInfo,
};
use crate::execution::TransactionSigned;
use crate::primitives;
use crate::primitives::{copy_bytes, Address, U256};
use crate::u256;
use crate::u256::{u256_div, u256_pow, u256_to_u64};

verus! {

/// Wei in a token.
pub open spec fn wei_per_token() -> nat {
    1_000_000_000_000_000_000
}

/// Whole tokens in this much wei, or the largest 64-bit integer if there are more.
pub open spec fn whole_tokens(wei: nat) -> u64 {
    if wei / wei_per_token() <= u64::MAX {
        (wei / wei_per_token()) as u64
    } else {
        u64::MAX
    }
}

/// An address behind as many zeros as make it 32 bytes long.
pub open spec fn padded_address(address: Address) -> Seq<u8> {
    Seq::new(12, |i: int| 0u8) + address@
}

/// The thresholds with a fast path, for the consensus layer.
pub open spec fn api_config_v2(config: ConfigV2Data) -> api::ConfigV2 {
    api::ConfigV2 {
        secrecy_threshold: api::FixedPoint64 { value: config.secrecy_threshold },
        reconstruction_threshold: api::FixedPoint64 { value: config.reconstruction_threshold },
        fast_path_secrecy_threshold: api::FixedPoint64 { value: config.fast_path_secrecy_threshold },
    }
}

/// The configuration of randomness, for the consensus layer. Randomness switched off is the
/// first variant there, whose thresholds are zero.
pub open spec fn api_config(config: RandomnessConfigData) -> api::RandomnessConfigData {
    api::RandomnessConfigData {
        variant: if config.variant is Off {
            api::ConfigVariant::V1
        } else {
            api::ConfigVariant::V2
        },
        config_v1: api::ConfigV1 {
            secrecy_threshold: api::FixedPoint64 { value: 0 },
            reconstruction_threshold: api::FixedPoint64 { value: 0 },
        },
        config_v2: api_config_v2(config.config_v2),
    }
}

/// A validator, for the consensus layer.
pub open spec fn api_validator(validator: types::ValidatorView) -> api::ValidatorView {
    api::ValidatorView {
        addr: padded_address(validator.validator),
        pk_bytes: validator.consensus_pubkey,
        voting_power: whole_tokens(primitives::u256_value(validator.voting_power)),
    }
}

/// Validators, for the consensus layer.
pub open spec fn api_validators(validators: Seq<types::ValidatorView>) -> Seq<api::ValidatorView> {
    validators.map_values(|v: types::ValidatorView| api_validator(v))
}

/// What a session is about, for the consensus layer.
pub open spec fn api_metadata(metadata: types::MetadataView) -> api::MetadataView {
    api::MetadataView {
        dealer_epoch: metadata.dealer_epoch,
        randomness_config: api_config(metadata.randomness_config),
        dealer_validator_set: api_validators(metadata.dealer_validator_set),
        target_validator_set: api_validators(metadata.target_validator_set),
    }
}

/// A session, for the consensus layer, if it is there.
pub open spec fn api_session(there: bool, session: types::SessionView) -> Option<api::SessionView> {
    if there {
        Some(
            api::SessionView {
                metadata: api_metadata(session.metadata),
                start_time_us: session.start_time_us,
                transcript: session.transcript,
            },
        )
    } else {
        None
    }
}

/// The state of distributed key generation, for the consensus layer.
pub open spec fn api_state(state: types::StateView) -> api::StateView {
    api::StateView {
        last_completed: api_session(state.has_last_completed, state.last_completed),
        in_progress: api_session(state.has_in_progress, state.in_progress),
    }
}

/// Whether the configuration of every session that is there has a variant that exists.
pub open spec fn has_known_variants(state: types::StateView) -> bool {
    &&& state.has_last_completed ==> state.last_completed.metadata.randomness_config.variant
        !is Invalid
    &&& state.has_in_progress ==> state.in_progress.metadata.randomness_config.variant !is Invalid
}

/// Ten to the power of 18 is the number of wei in a token.
proof fn lemma_wei_per_token()
    ensures
        vstd::arithmetic::power::pow(10, 18) == wei_per_token(),
        vstd::arithmetic::power::pow(10, 18) % (u256::u256_count() as int) == wei_per_token(),
{
    reveal_with_fuel(vstd::arithmetic::power::pow, 19);
}

/// Whole tokens in this much wei.
fn tokens_of(wei: &U256) -> (r: u64)
    ensures
        r == whole_tokens(primitives::u256_value(*wei)),
        r < u64::MAX ==> r * 1_000_000_000_000_000_000 <= primitives::u256_value(*wei) < (r + 1)
            * 1_000_000_000_000_000_000,
        r == u64::MAX ==> primitives::u256_value(*wei) >= u64::MAX * 1_000_000_000_000_000_000,
{
    let ten: U256 = [10, 0, 0, 0];
    let eighteen: U256 = [18, 0, 0, 0];
    let unit = u256_pow(&ten, &eighteen);
    proof {
        lemma_wei_per_token();
    }
    match u256_to_u64(&u256_div(wei, &unit)) {
        Some(tokens) => tokens,
        None => u64::MAX,
    }
}

/// An address behind as many zeros as make it 32 bytes long.
fn pad_address(address: &Address) -> (r: [u8; 32])
    ensures
        r@ == padded_address(*address),
        forall|j: int| 0 <= j < 12 ==> #[trigger] r[j] == 0,
        forall|j: int| 0 <= j < 20 ==> #[trigger] r[12 + j] == address[j],
{
    let mut r: [u8; 32] = [0;32];
    let mut i: usize = 0;
    while i < 20
        invariant
            i <= 20,
            forall|j: int| 0 <= j < 12 ==> #[trigger] r[j] == 0,
            forall|j: int| 12 <= j < 12 + i ==> #[trigger] r[j] == address[j - 12],
        decreases 20 - i,
    {
        r[12 + i] = address[i];
        i += 1;
    }
    assert(r@ =~= padded_address(*address));
    r
}

/// Converts the thresholds with a fast path.
pub fn convert_config_v2_data(config: &ConfigV2Data) -> (r: api::ConfigV2)
    ensures
        r == api_config_v2(*config),
        r.secrecy_threshold.value == config.secrecy_threshold,
        r.reconstruction_threshold.value == config.reconstruction_threshold,
        r.fast_path_secrecy_threshold.value == config.fast_path_secrecy_threshold,
{
    api::ConfigV2 {
        secrecy_threshold: api::FixedPoint64 { value: config.secrecy_threshold },
        reconstruction_threshold: api::FixedPoint64 { value: config.reconstruction_threshold },
        fast_path_secrecy_threshold: api::FixedPoint64 { value: config.fast_path_secrecy_threshold },
    }
}

/// Converts the configuration of randomness.
pub fn convert_randomness_config(config: &RandomnessConfigData) -> (r: api::RandomnessConfigData)
    requires
        config.variant !is Invalid,
    ensures
        r == api_config(*config),
        config.variant is Off ==> r.variant is V1,
        config.variant is V2 ==> r.variant is V2,
        r.config_v1.secrecy_threshold.value == 0,
        r.config_v1.reconstruction_threshold.value == 0,
        r.config_v2.secrecy_threshold.value == config.config_v2.secrecy_threshold,
        r.config_v2.reconstruction_threshold.value == config.config_v2.reconstruction_threshold,
        r.config_v2.fast_path_secrecy_threshold.value == config.config_v2.fast_path_secrecy_threshold,
{
    let variant = match config.variant {
        ConfigVariant::Off => api::ConfigVariant::V1,
        _ => api::ConfigVariant::V2,
    };
    api::RandomnessConfigData {
        variant,
        config_v1: api::ConfigV1 {
            secrecy_threshold: api::FixedPoint64 { value: 0 },
            reconstruction_threshold: api::FixedPoint64 { value: 0 },
        },
        config_v2: convert_config_v2_data(&config.config_v2),
    }
}

/// Converts the configuration of randomness and encodes it.
pub fn convert_randomness_config_to_bcs(config: &RandomnessConfigData) -> (r: Vec<u8>)
    requires
        config.variant !is Invalid,
    ensures
        r@ == api::encoded_config(api_config(*config)),
{
    convert_randomness_config(config).to_bytes()
}

/// Converts a validator.
pub fn convert_validator(validator: &ValidatorConsensusInfo) -> (r: api::ValidatorConsensusInfo)
    ensures
        r@ == api_validator(validator@),
        forall|b: int| 0 <= b < 12 ==> #[trigger] r.addr[b] == 0,
        forall|b: int| 0 <= b < 20 ==> #[trigger] r.addr[12 + b] == validator.validator[b],
        r.pk_bytes@ == validator.consensus_pubkey@,
        r.voting_power == whole_tokens(primitives::u256_value(validator.voting_power)),
{
    api::ValidatorConsensusInfo {
        addr: pad_address(&validator.validator),
        pk_bytes: copy_bytes(&validator.consensus_pubkey),
        voting_power: tokens_of(&validator.voting_power),
    }
}

/// Converts validators.
fn convert_validators(validators: &Vec<ValidatorConsensusInfo>) -> (r: Vec<api::ValidatorConsensusInfo>)
    ensures
        api::validators_view(r@) == api_validators(types::validators_view(validators@)),
        r@.len() == validators@.len(),
        forall|j: int|
            0 <= j < validators@.len() ==> (#[trigger] r@[j])@ == api_validator(validators@[j]@),
{
    let mut r: Vec<api::ValidatorConsensusInfo> = Vec::with_capacity(validators.len());
    let mut i: usize = 0;
    while i < validators.len()
        invariant
            i <= validators.len(),
            r@.len() == i,
            forall|j: int| 0 <= j < i ==> (#[trigger] r@[j])@ == api_validator(validators@[j]@),
        decreases validators.len() - i,
    {
        r.push(convert_validator(&validators[i]));
        i += 1;
    }
    assert(api::validators_view(r@) =~= api_validators(types::validators_view(validators@)));
    r
}

/// Converts what a session is about.
pub fn convert_dkg_session_metadata(metadata: &DKGSessionMetadata) -> (r: api::DKGSessionMetadata)
    requires
        metadata.randomness_config.variant !is Invalid,
    ensures
        r@ == api_metadata(metadata@),
        r.dealer_epoch == metadata.dealer_epoch,
        r.randomness_config == api_config(metadata.randomness_config),
        r.dealer_validator_set@.len() == metadata.dealer_validator_set@.len(),
        forall|i: int|
            #![trigger r.dealer_validator_set@[i]]
            0 <= i < metadata.dealer_validator_set@.len() ==> {
                let (made, validator) = (r.dealer_validator_set@[i], metadata.dealer_validator_set@[i]);
                &&& made.addr@.len() == 32
                &&& forall|b: int| 0 <= b < 12 ==> #[trigger] made.addr@[b] == 0
                &&& forall|b: int| 0 <= b < 20 ==> #[trigger] made.addr@[12 + b] == validator.validator[b]
                &&& made.pk_bytes@ == validator.consensus_pubkey@
                &&& made.voting_power == whole_tokens(primitives::u256_value(validator.voting_power))
            },
        r.target_validator_set@.len() == metadata.target_validator_set@.len(),
        forall|i: int|
            #![trigger r.target_validator_set@[i]]
            0 <= i < metadata.target_validator_set@.len() ==> {
                let (made, validator) = (r.target_validator_set@[i], metadata.target_validator_set@[i]);
                &&& made.addr@.len() == 32
                &&& forall|b: int| 0 <= b < 12 ==> #[trigger] made.addr@[b] == 0
                &&& forall|b: int| 0 <= b < 20 ==> #[trigger] made.addr@[12 + b] == validator.validator[b]
                &&& made.pk_bytes@ == validator.consensus_pubkey@
                &&& made.voting_power == whole_tokens(primitives::u256_value(validator.voting_power))
            },
{
    api::DKGSessionMetadata {
        dealer_epoch: metadata.dealer_epoch,
        randomness_config: convert_randomness_config(&metadata.randomness_config),
        dealer_validator_set: convert_validators(&metadata.dealer_validator_set),
        target_validator_set: convert_validators(&metadata.target_validator_set),
    }
}

/// Converts the event that a session started.
pub fn convert_dkg_start_event_to_api(event: &DKGStartEvent) -> (r: api::DKGStartEvent)
    requires
        event.metadata.randomness_config.variant !is Invalid,
    ensures
        r.session_metadata@ == api_metadata(event.metadata@),
        r.start_time_us == event.start_time_us,
        r.session_metadata.dealer_epoch == event.metadata.dealer_epoch,
        r.session_metadata.dealer_validator_set@.len()
            == event.metadata.dealer_validator_set@.len(),
        r.session_metadata.target_validator_set@.len()
            == event.metadata.target_validator_set@.len(),
{
    api::DKGStartEvent {
        session_metadata: convert_dkg_session_metadata(&event.metadata),
        start_time_us: event.start_time_us,
    }
}

/// Converts a session, if it is there.
fn convert_session(there: bool, session: &DKGSessionInfo) -> (r: Option<api::DKGSessionState>)
    requires
        there ==> session.metadata.randomness_config.variant !is Invalid,
    ensures
        api::session_view(r) == api_session(there, session@),
        r is Some <==> there,
        r matches Some(s) ==> {
            &&& s.metadata@ == api_metadata(session.metadata@)
            &&& s.start_time_us == session.start_time_us
            &&& s.transcript@ == session.transcript@
        },
{
    if there {
        Some(
            api::DKGSessionState {
                metadata: convert_dkg_session_metadata(&session.metadata),
                start_time_us: session.start_time_us,
                transcript: copy_bytes(&session.transcript),
            },
        )
    } else {
        None
    }
}

/// Converts the state of distributed key generation.
fn convert_dkg_state(solidity_state: &GetDKGStateReturn) -> (r: api::DKGState)
    requires
        has_known_variants(solidity_state@),
    ensures
        r@ == api_state(solidity_state@),
        r.last_completed is Some <==> solidity_state.has_last_completed,
        r.in_progress is Some <==> solidity_state.has_in_progress,
        r.last_completed matches Some(s) ==> {
            &&& s.metadata@ == api_metadata(solidity_state.last_completed.metadata@)
            &&& s.start_time_us == solidity_state.last_completed.start_time_us
            &&& s.transcript@ == solidity_state.last_completed.transcript@
        },
        r.in_progress matches Some(s) ==> {
            &&& s.metadata@ == api_metadata(solidity_state.in_progress.metadata@)
            &&& s.start_time_us == solidity_state.in_progress.start_time_us
            &&& s.transcript@ == solidity_state.in_progress.transcript@
        },
{
    api::DKGState {
        last_completed: convert_session(
            solidity_state.has_last_completed,
            &solidity_state.last_completed,
        ),
        in_progress: convert_session(solidity_state.has_in_progress, &solidity_state.in_progress),
    }
}

/// Converts the state of distributed key generation and encodes it.
pub fn convert_dkg_state_to_bcs(solidity_state: &GetDKGStateReturn) -> (r: Vec<u8>)
    requires
        has_known_variants(solidity_state@),
        api::encodable_state(api_state(solidity_state@)),
    ensures
        r@ == api::encoded_state(api_state(solidity_state@)),
{
    convert_dkg_state(solidity_state).to_bytes().unwrap()
}

/// Builds the transaction that ends the epoch with the result of distributed key generation.
pub fn construct_dkg_transaction(
    dkg_transcript: api::DKGTranscript,
    nonce: u64,
    gas_price: u128,
    addresses: &SystemAddresses,
) -> (r: Result<TransactionSigned, String>)
    ensures
        r matches Ok(txn) && metadata_txn::is_system_call(
            txn,
            addresses.reconfiguration_with_dkg,
            nonce,
            gas_price,
            FINISH_TRANSITION@ + abi::encoded_bytes(dkg_transcript.transcript_bytes@),
        ),
{
    let params = encode_bytes(&dkg_transcript.transcript_bytes);
    let input = call_data(FINISH_TRANSITION, &params);
    Ok(new_system_call_txn(addresses.reconfiguration_with_dkg, nonce, gas_price, input))
}

/// Fetches the state of distributed key generation.
#[derive(Debug)]
pub struct DKGStateFetcher<'a, EthApi> {
    /// What every fetcher needs.
    pub base_fetcher: &'a OnchainConfigFetcher<EthApi>,
}

/// What fetching the state of distributed key generation comes to, where the contract replied
/// with these bytes, `None` if it did not reply.
pub open spec fn fetched_dkg_state(reply: Option<Seq<u8>>) -> FetchedView {
    match reply {
        Some(data) => match types::decoded_dkg_state(data) {
            Some(state) => if has_known_variants(state) && api::encodable_state(api_state(state)) {
                FetchedView::Config(api::encoded_state(api_state(state)))
            } else {
                FetchedView::Invalid
            },
            None => FetchedView::Unavailable,
        },
        None => FetchedView::Unavailable,
    }
}

/// Converts and encodes the state of distributed key generation where that can be done.
pub fn encode_dkg_state(solidity_state: &GetDKGStateReturn) -> (r: Option<Vec<u8>>)
    ensures
        abi::bytes_of(r) == if has_known_variants(solidity_state@) {
            api::state_bytes(api_state(solidity_state@))
        } else {
            None
        },
{
    let last_completed_known = match solidity_state.last_completed.metadata.randomness_config.variant {
        ConfigVariant::Invalid => !solidity_state.has_last_completed,
        _ => true,
    };
    let in_progress_known = match solidity_state.in_progress.metadata.randomness_config.variant {
        ConfigVariant::Invalid => !solidity_state.has_in_progress,
        _ => true,
    };
    if last_completed_known && in_progress_known {
        convert_dkg_state(solidity_state).to_bytes()
    } else {
        None
    }
}

impl<'a, EthApi> DKGStateFetcher<'a, EthApi> {
    /// A fetcher that shares `base_fetcher`.
    pub fn new(base_fetcher: &'a OnchainConfigFetcher<EthApi>) -> (r: Self)
        ensures
            r.base_fetcher == base_fetcher,
    {
        DKGStateFetcher { base_fetcher }
    }

    /// The contract that holds the state.
    pub fn contract_address(&self) -> (r: Address)
        ensures
            r == self.base_fetcher.addresses.dkg,
    {
        self.base_fetcher.addresses.dkg
    }

    /// Who asks for it.
    pub fn caller_address(&self) -> (r: Address)
        ensures
            r == self.base_fetcher.addresses.system_caller,
    {
        self.base_fetcher.addresses.system_caller
    }

    /// The call that asks for the state.
    pub fn request(&self) -> (r: CallRequest)
        ensures
            r.from == self.base_fetcher.addresses.system_caller,
            r.to == self.base_fetcher.addresses.dkg,
            r.input@ == GET_DKG_STATE@,
    {
        CallRequest {
            from: self.caller_address(),
            to: self.contract_address(),
            input: selector_only(GET_DKG_STATE),
        }
    }

    /// The state, encoded for the consensus layer, from what the contract replied.
    pub fn fetch(&self, reply: Option<Vec<u8>>) -> (r: Fetched)
        ensures
            r@ == fetched_dkg_state(abi::bytes_of(reply)),
            reply is None ==> r is Unavailable,
            r is Unavailable <==> fetched_dkg_state(abi::bytes_of(reply)) is Unavailable,
            r is Invalid <==> fetched_dkg_state(abi::bytes_of(reply)) is Invalid,
            r matches Fetched::Config(bytes) ==> fetched_dkg_state(abi::bytes_of(reply))
                == FetchedView::Config(bytes@),
    {
        match reply {
            Some(data) => match decode_dkg_state(&data) {
                Some(state) => match encode_dkg_state(&state) {
                    Some(bytes) => Fetched::Config(bytes),
                    None => Fetched::Invalid,
                },
                None => Fetched::Unavailable,
            },
            None => Fetched::Unavailable,
        }
    }
}

/// Fetches the configuration of randomness.
#[derive(Debug)]
pub struct RandomnessConfigFetcher<'a, EthApi> {
    /// What every fetcher needs.
    pub base_fetcher: &'a OnchainConfigFetcher<EthApi>,
}

/// What fetching the configuration of randomness comes to, where the contract replied with
/// these bytes, `None` if it did not reply.
pub open spec fn fetched_randomness_config(reply: Option<Seq<u8>>) -> FetchedView {
    match reply {
        Some(data) => match types::decoded_config(data) {
            Some(config) => if config.variant is Invalid {
                FetchedView::Invalid
            } else {
                FetchedView::Config(api::encoded_config(api_config(config)))
            },
            None => FetchedView::Unavailable,
        },
        None => FetchedView::Unavailable,
    }
}

impl<'a, EthApi> RandomnessConfigFetcher<'a, EthApi> {
    /// A fetcher that shares `base_fetcher`.
    pub fn new(base_fetcher: &'a OnchainConfigFetcher<EthApi>) -> (r: Self)
        ensures
            r.base_fetcher == base_fetcher,
    {
        RandomnessConfigFetcher { base_fetcher }
    }

    /// The contract that holds the configuration.
    pub fn contract_address(&self) -> (r: Address)
        ensures
            r == self.base_fetcher.addresses.randomness_config,
    {
        self.base_fetcher.addresses.randomness_config
    }

    /// Who asks for it.
    pub fn caller_address(&self) -> (r: Address)
        ensures
            r == self.base_fetcher.addresses.system_caller,
    {
        self.base_fetcher.addresses.system_caller
    }

    /// The call that asks for the configuration.
    pub fn request(&self) -> (r: CallRequest)
        ensures
            r.from == self.base_fetcher.addresses.system_caller,
            r.to == self.base_fetcher.addresses.randomness_config,
            r.input@ == GET_CURRENT_CONFIG@,
    {
        CallRequest {
            from: self.caller_address(),
            to: self.contract_address(),
            input: selector_only(GET_CURRENT_CONFIG),
        }
    }

    /// The configuration, encoded for the consensus layer, from what the contract replied.
    pub fn fetch(&self, reply: Option<Vec<u8>>) -> (r: Fetched)
        ensures
            r@ == fetched_randomness_config(abi::bytes_of(reply)),
            reply is None ==> r is Unavailable,
            r is Unavailable <==> fetched_randomness_config(abi::bytes_of(reply)) is Unavailable,
            r is Invalid <==> fetched_randomness_config(abi::bytes_of(reply)) is Invalid,
            r matches Fetched::Config(bytes) ==> fetched_randomness_config(abi::bytes_of(reply))
                == FetchedView::Config(bytes@),
    {
        match reply {
            Some(data) => match decode_randomness_config(&data) {
                Some(config) => match config.variant {
                    ConfigVariant::Invalid => Fetched::Invalid,
                    _ => Fetched::Config(convert_randomness_config_to_bcs(&config)),
                },
                None => Fetched::Unavailable,
            },
            None => Fetched::Unavailable,
        }
    }
}

/// The validators, for the consensus layer, have addresses of full length.
proof fn lemma_full_addresses(validators: Seq<types::ValidatorView>)
    ensures
        read_back::full_addresses(api_validators(validators)),
{
}

/// The consensus layer reads out of the encoded state of distributed key generation what the
/// contract returned: each session is there exactly where the contract says so, with its
/// converted metadata, its start time and its transcript.
pub proof fn law_dkg_state_reads_back(state: types::StateView)
    ensures
        ({
            let decoded = read_back::decoded_state(api::encoded_state(api_state(state)));
            &&& decoded matches Some(d)
            &&& d.last_completed is Some <==> state.has_last_completed
            &&& d.in_progress is Some <==> state.has_in_progress
            &&& d.last_completed matches Some(session) ==> {
                &&& session.metadata == api_metadata(state.last_completed.metadata)
                &&& session.start_time_us == state.last_completed.start_time_us
                &&& session.transcript == state.last_completed.transcript
            }
            &&& d.in_progress matches Some(session) ==> {
                &&& session.metadata == api_metadata(state.in_progress.metadata)
                &&& session.start_time_us == state.in_progress.start_time_us
                &&& session.transcript == state.in_progress.transcript
            }
        }),
{
    lemma_full_addresses(state.last_completed.metadata.dealer_validator_set);
    lemma_full_addresses(state.last_completed.metadata.target_validator_set);
    lemma_full_addresses(state.in_progress.metadata.dealer_validator_set);
    lemma_full_addresses(state.in_progress.metadata.target_validator_set);
    read_back::law_state_reads_back(api_state(state));
}

/// What a session is about keeps its validators when it is converted: there are as many who deal
/// and as many who receive as the contract returned, in the same order. Each has its address
/// behind 12 zeros, its public key, and its voting power in whole tokens.
pub proof fn law_metadata_keeps_validators(metadata: types::MetadataView, i: int)
    ensures
        ({
            let (made, returned) = (api_metadata(metadata).dealer_validator_set, metadata.dealer_validator_set);
            &&& made.len() == returned.len()
            &&& 0 <= i < returned.len() ==> {
                &&& made[i].addr.len() == 32
                &&& forall|b: int| 0 <= b < 12 ==> #[trigger] made[i].addr[b] == 0
                &&& forall|b: int| 0 <= b < 20 ==> #[trigger] made[i].addr[12 + b] == returned[i].validator[b]
                &&& made[i].pk_bytes == returned[i].consensus_pubkey
                &&& made[i].voting_power == whole_tokens(primitives::u256_value(returned[i].voting_power))
            }
        }),
        ({
            let (made, returned) = (api_metadata(metadata).target_validator_set, metadata.target_validator_set);
            &&& made.len() == returned.len()
            &&& 0 <= i < returned.len() ==> {
                &&& made[i].addr.len() == 32
                &&& forall|b: int| 0 <= b < 12 ==> #[trigger] made[i].addr[b] == 0
                &&& forall|b: int| 0 <= b < 20 ==> #[trigger] made[i].addr[12 + b] == returned[i].validator[b]
                &&& made[i].pk_bytes == returned[i].consensus_pubkey
                &&& made[i].voting_power == whole_tokens(primitives::u256_value(returned[i].voting_power))
            }
        }),
        api_metadata(metadata).dealer_epoch == metadata.dealer_epoch,
{
}

/// The configuration of randomness keeps its thresholds when it is converted, each in its place.
/// Those without a fast path are zero. Switched off is the first variant, and only that.
pub proof fn law_config_keeps_thresholds(config: RandomnessConfigData, metadata: types::MetadataView)
    ensures
        config.variant is Off <==> api_config(config).variant is V1,
        api_config(config).config_v1.secrecy_threshold.value == 0,
        api_config(config).config_v1.reconstruction_threshold.value == 0,
        api_config(config).config_v2.secrecy_threshold.value == config.config_v2.secrecy_threshold,
        api_config(config).config_v2.reconstruction_threshold.value == config.config_v2.reconstruction_threshold,
        api_config(config).config_v2.fast_path_secrecy_threshold.value == config.config_v2.fast_path_secrecy_threshold,
        api_metadata(metadata).randomness_config == api_config(metadata.randomness_config),
{
}

/// Sessions are there exactly where the contract says so, each in its place, with its metadata,
/// its start time and its transcript.
pub proof fn law_state_keeps_sessions(state: types::StateView)
    ensures
        ({
            let converted = api_state(state);
            &&& converted.last_completed is Some <==> state.has_last_completed
            &&& converted.in_progress is Some <==> state.has_in_progress
            &&& converted.last_completed matches Some(session) ==> {
                &&& session.metadata == api_metadata(state.last_completed.metadata)
                &&& session.start_time_us == state.last_completed.start_time_us
                &&& session.transcript == state.last_completed.transcript
            }
            &&& converted.in_progress matches Some(session) ==> {
                &&& session.metadata == api_metadata(state.in_progress.metadata)
                &&& session.start_time_us == state.in_progress.start_time_us
                &&& session.transcript == state.in_progress.transcript
            }
        }),
{
}

/// The consensus layer reads the validators of each session out of the encoded state: as many
/// who deal and as many who receive as the contract returned, in the same order, each with its
/// padded address, its public key and its voting power in whole tokens.
pub proof fn law_dkg_validators_read_back(state: types::StateView, i: int)
    ensures
        ({
            let decoded = read_back::decoded_state(api::encoded_state(api_state(state)));
            &&& decoded matches Some(d)
            &&& d.last_completed is Some <==> state.has_last_completed
            &&& d.in_progress is Some <==> state.has_in_progress
            &&& d.last_completed matches Some(session) ==> {
                &&& session.metadata.dealer_epoch == state.last_completed.metadata.dealer_epoch
                &&& session.metadata.dealer_validator_set.len()
                    == state.last_completed.metadata.dealer_validator_set.len()
                &&& 0 <= i < state.last_completed.metadata.dealer_validator_set.len() ==> {
                    let made = session.metadata.dealer_validator_set[i];
                    let validator = state.last_completed.metadata.dealer_validator_set[i];
                    &&& made.addr.len() == 32
                    &&& forall|b: int| 0 <= b < 12 ==> #[trigger] made.addr[b] == 0
                    &&& forall|b: int| 0 <= b < 20 ==> #[trigger] made.addr[12 + b] == validator.validator[b]
                    &&& made.pk_bytes == validator.consensus_pubkey
                    &&& made.voting_power == whole_tokens(primitives::u256_value(validator.voting_power))
                }
                &&& session.metadata.target_validator_set.len()
                    == state.last_completed.metadata.target_validator_set.len()
                &&& 0 <= i < state.last_completed.metadata.target_validator_set.len() ==> {
                    let made = session.metadata.target_validator_set[i];
                    let validator = state.last_completed.metadata.target_validator_set[i];
                    &&& made.addr.len() == 32
                    &&& forall|b: int| 0 <= b < 12 ==> #[trigger] made.addr[b] == 0
                    &&& forall|b: int| 0 <= b < 20 ==> #[trigger] made.addr[12 + b] == validator.validator[b]
                    &&& made.pk_bytes == validator.consensus_pubkey
                    &&& made.voting_power == whole_tokens(primitives::u256_value(validator.voting_power))
                }
            }
            &&& d.in_progress matches Some(session) ==> {
                &&& session.metadata.dealer_epoch == state.in_progress.metadata.dealer_epoch
                &&& session.metadata.dealer_validator_set.len()
                    == state.in_progress.metadata.dealer_validator_set.len()
                &&& 0 <= i < state.in_progress.metadata.dealer_validator_set.len() ==> {
                    let made = session.metadata.dealer_validator_set[i];
                    let validator = state.in_progress.metadata.dealer_validator_set[i];
                    &&& made.addr.len() == 32
                    &&& forall|b: int| 0 <= b < 12 ==> #[trigger] made.addr[b] == 0
                    &&& forall|b: int| 0 <= b < 20 ==> #[trigger] made.addr[12 + b] == validator.validator[b]
                    &&& made.pk_bytes == validator.consensus_pubkey
                    &&& made.voting_power == whole_tokens(primitives::u256_value(validator.voting_power))
                }
                &&& session.metadata.target_validator_set.len()
                    == state.in_progress.metadata.target_validator_set.len()
                &&& 0 <= i < state.in_progress.metadata.target_validator_set.len() ==> {
                    let made = session.metadata.target_validator_set[i];
                    let validator = state.in_progress.metadata.target_validator_set[i];
                    &&& made.addr.len() == 32
                    &&& forall|b: int| 0 <= b < 12 ==> #[trigger] made.addr[b] == 0
                    &&& forall|b: int| 0 <= b < 20 ==> #[trigger] made.addr[12 + b] == validator.validator[b]
                    &&& made.pk_bytes == validator.consensus_pubkey
                    &&& made.voting_power == whole_tokens(primitives::u256_value(validator.voting_power))
                }
            }
        }),
{
    law_dkg_state_reads_back(state);
    law_metadata_keeps_validators(state.last_completed.metadata, i);
    law_metadata_keeps_validators(state.in_progress.metadata, i);
}

/// Voting power is counted in whole tokens of ten to the power of 18 wei: what is left over is
/// less than a token. Where there are more tokens than the largest 64-bit integer, it is that
/// integer.
pub proof fn law_voting_power_counts_whole_tokens(wei: nat)
    ensures
        ({
            let tokens = whole_tokens(wei);
            &&& tokens < u64::MAX ==> tokens * 1_000_000_000_000_000_000 <= wei < (tokens + 1)
                * 1_000_000_000_000_000_000
            &&& tokens == u64::MAX ==> wei >= u64::MAX * 1_000_000_000_000_000_000
        }),
{
}

/// Fetching the state of distributed key generation finds nothing where the contract does not
/// reply or the reply does not decode. A session that is there must not have an unknown variant.
/// Otherwise the converted state is handed on, where its lists are short enough to be encoded.
pub proof fn law_fetched_dkg_state(reply: Option<Seq<u8>>)
    ensures
        reply is None ==> fetched_dkg_state(reply) is Unavailable,
        reply matches Some(data) ==> match types::decoded_dkg_state(data) {
            None => fetched_dkg_state(reply) is Unavailable,
            Some(state) => {
                let unknown = {
                    ||| state.has_last_completed
                        && state.last_completed.metadata.randomness_config.variant is Invalid
                    ||| state.has_in_progress
                        && state.in_progress.metadata.randomness_config.variant is Invalid
                };
                &&& fetched_dkg_state(reply) is Invalid <==> unknown || !api::encodable_state(
                    api_state(state),
                )
                &&& !unknown && api::encodable_state(api_state(state)) ==> fetched_dkg_state(reply)
                    == FetchedView::Config(api::encoded_state(api_state(state)))
            },
        },
{
}

/// Fetching the configuration of randomness finds nothing where the contract does not reply or
/// the reply is shorter than four words. A variant other than the first two is not valid. Otherwise
/// the converted configuration is handed on.
pub proof fn law_fetched_randomness_config(reply: Option<Seq<u8>>)
    ensures
        reply is None ==> fetched_randomness_config(reply) is Unavailable,
        reply matches Some(data) ==> {
            &&& fetched_randomness_config(reply) is Unavailable <==> data.len() < 128
            &&& data.len() >= 128 ==> (fetched_randomness_config(reply) is Invalid <==> data[31] > 1)
            &&& data.len() >= 128 && data[31] <= 1 ==> {
                let config = types::decoded_config(data)->0;
                &&& fetched_randomness_config(reply) == FetchedView::Config(
                    api::encoded_config(api_config(config)),
                )
                &&& config.variant is Off <==> data[31] == 0
                &&& config.config_v2.secrecy_threshold == abi::be_value(
                    data.subrange(48, 64),
                ) as u128
                &&& config.config_v2.reconstruction_threshold == abi::be_value(
                    data.subrange(80, 96),
                ) as u128
                &&& config.config_v2.fast_path_secrecy_threshold == abi::be_value(
                    data.subrange(112, 128),
                ) as u128
            }
        },
{
}

/// Different addresses stay different when they are padded.
pub proof fn law_padded_addresses_differ(a: Address, b: Address)
    ensures
        padded_address(a) == padded_address(b) <==> a == b,
{
    if padded_address(a) == padded_address(b) {
        assert forall|i: int| 0 <= i < 20 implies #[trigger] a[i] == b[i] by {
            assert(padded_address(a)[12 + i] == a@[i]);
            assert(padded_address(b)[12 + i] == b@[i]);
        }
        assert(a =~= b);
    }
}

/// More wei never means less voting power, and what was rounded off is less than a token.
pub proof fn law_voting_power_is_monotone(a: nat, b: nat)
    requires
        a <= b,
    ensures
        whole_tokens(a) <= whole_tokens(b),
        a / wei_per_token() <= u64::MAX ==> whole_tokens(a) * wei_per_token() <= a < (whole_tokens(a)
            + 1) * wei_per_token(),
{
    assert(a / wei_per_token() <= b / wei_per_token());
}

} // verus!
