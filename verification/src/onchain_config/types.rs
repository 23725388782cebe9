//! The values that the system contracts return.

use alloy_sol_types::{sol_data, SolType};
use vstd::prelude::*;

use super::abi;
use crate::primitives::{copy_bytes, Address, U256};

verus! {

/// Which configuration of randomness a contract says is in force.
#[derive(Clone, Copy, Debug, PartialEq, Eq, Structural)]
pub enum ConfigVariant {
    /// Randomness is switched off.
    Off,
    /// The configuration with a fast path.
    V2,
    /// A number that stands for no variant.
    Invalid,
}

/// Thresholds with a fast path: fixed-point numbers, times two to the power of 64.
#[derive(Clone, Copy, Debug, PartialEq, Eq, Structural)]
pub struct ConfigV2Data {
    /// How much stake must not be able to learn the secret.
    pub secrecy_threshold: u128,
    /// How much stake can reconstruct the secret.
    pub reconstruction_threshold: u128,
    /// How much stake must not be able to learn the secret on the fast path.
    pub fast_path_secrecy_threshold: u128,
}

/// The configuration of randomness.
#[derive(Clone, Copy, Debug, PartialEq, Eq, Structural)]
pub struct RandomnessConfigData {
    /// Which configuration is in force.
    pub variant: ConfigVariant,
    /// The one with a fast path.
    pub config_v2: ConfigV2Data,
}

/// A validator.
#[derive(Debug)]
pub struct ValidatorConsensusInfo {
    /// Its address.
    pub validator: Address,
    /// Its public key.
    pub consensus_pubkey: Vec<u8>,
    /// Its proof of possession of the key.
    pub consensus_pop: Vec<u8>,
    /// Its voting power in wei.
    pub voting_power: U256,
    /// Its index among the validators.
    pub validator_index: u64,
    /// Its network addresses.
    pub network_addresses: Vec<u8>,
    /// The network addresses of its full nodes.
    pub fullnode_addresses: Vec<u8>,
}

/// What a session of distributed key generation is about.
#[derive(Debug)]
pub struct DKGSessionMetadata {
    /// The epoch of those who deal.
    pub dealer_epoch: u64,
    /// The configuration of randomness.
    pub randomness_config: RandomnessConfigData,
    /// Those who deal.
    pub dealer_validator_set: Vec<ValidatorConsensusInfo>,
    /// Those who receive.
    pub target_validator_set: Vec<ValidatorConsensusInfo>,
}

/// A session of distributed key generation.
#[derive(Debug)]
pub struct DKGSessionInfo {
    /// What it is about.
    pub metadata: DKGSessionMetadata,
    /// When it started, in microseconds since the epoch.
    pub start_time_us: u64,
    /// What came out of it.
    pub transcript: Vec<u8>,
}

/// The state of distributed key generation. A session that is not there has no meaning.
#[derive(Debug)]
pub struct GetDKGStateReturn {
    /// The last session that completed.
    pub last_completed: DKGSessionInfo,
    /// Whether there is one.
    pub has_last_completed: bool,
    /// The session that is in progress.
    pub in_progress: DKGSessionInfo,
    /// Whether there is one.
    pub has_in_progress: bool,
}

/// A session of distributed key generation started.
#[derive(Debug)]
pub struct DKGStartEvent {
    /// The epoch of those who deal.
    pub dealer_epoch: u64,
    /// When it started, in microseconds since the epoch.
    pub start_time_us: u64,
    /// What it is about.
    pub metadata: DKGSessionMetadata,
}

/// The model of a [`ValidatorConsensusInfo`].
#[verifier::ext_equal]
pub struct ValidatorView {
    pub validator: Address,
    pub consensus_pubkey: Seq<u8>,
    pub consensus_pop: Seq<u8>,
    pub voting_power: U256,
    pub validator_index: u64,
    pub network_addresses: Seq<u8>,
    pub fullnode_addresses: Seq<u8>,
}

/// The model of [`DKGSessionMetadata`].
#[verifier::ext_equal]
pub struct MetadataView {
    pub dealer_epoch: u64,
    pub randomness_config: RandomnessConfigData,
    pub dealer_validator_set: Seq<ValidatorView>,
    pub target_validator_set: Seq<ValidatorView>,
}

/// The model of a [`DKGSessionInfo`].
#[verifier::ext_equal]
pub struct SessionView {
    pub metadata: MetadataView,
    pub start_time_us: u64,
    pub transcript: Seq<u8>,
}

/// The model of a [`GetDKGStateReturn`].
#[verifier::ext_equal]
pub struct StateView {
    pub last_completed: SessionView,
    pub has_last_completed: bool,
    pub in_progress: SessionView,
    pub has_in_progress: bool,
}

impl View for ValidatorConsensusInfo {
    type V = ValidatorView;

    open spec fn view(&self) -> ValidatorView {
        ValidatorView {
            validator: self.validator,
            consensus_pubkey: self.consensus_pubkey@,
            consensus_pop: self.consensus_pop@,
            voting_power: self.voting_power,
            validator_index: self.validator_index,
            network_addresses: self.network_addresses@,
            fullnode_addresses: self.fullnode_addresses@,
        }
    }
}

/// The models of `validators`.
pub open spec fn validators_view(validators: Seq<ValidatorConsensusInfo>) -> Seq<ValidatorView> {
    validators.map_values(|v: ValidatorConsensusInfo| v@)
}

impl View for DKGSessionMetadata {
    type V = MetadataView;

    open spec fn view(&self) -> MetadataView {
        MetadataView {
            dealer_epoch: self.dealer_epoch,
            randomness_config: self.randomness_config,
            dealer_validator_set: validators_view(self.dealer_validator_set@),
            target_validator_set: validators_view(self.target_validator_set@),
        }
    }
}

impl View for DKGSessionInfo {
    type V = SessionView;

    open spec fn view(&self) -> SessionView {
        SessionView {
            metadata: self.metadata@,
            start_time_us: self.start_time_us,
            transcript: self.transcript@,
        }
    }
}

impl View for GetDKGStateReturn {
    type V = StateView;

    open spec fn view(&self) -> StateView {
        StateView {
            last_completed: self.last_completed@,
            has_last_completed: self.has_last_completed,
            in_progress: self.in_progress@,
            has_in_progress: self.has_in_progress,
        }
    }
}

/// A validator in the ABI: a tuple of its fields.
type AbiValidator = (
    sol_data::Address,
    sol_data::Bytes,
    sol_data::Bytes,
    sol_data::Uint<256>,
    sol_data::Uint<64>,
    sol_data::Bytes,
    sol_data::Bytes,
);

/// A session of distributed key generation in the ABI. The enum of the configuration is a
/// `uint8` there.
type AbiSession = (
    (
        sol_data::Uint<64>,
        (sol_data::Uint<8>, (sol_data::Uint<128>, sol_data::Uint<128>, sol_data::Uint<128>)),
        sol_data::Array<AbiValidator>,
        sol_data::Array<AbiValidator>,
    ),
    sol_data::Uint<64>,
    sol_data::Bytes,
);

/// The fields of a validator, in order.
pub type ValidatorFields = (Address, Vec<u8>, Vec<u8>, U256, u64, Vec<u8>, Vec<u8>);

/// The fields of a randomness configuration: the variant and the thresholds.
pub type ConfigFields = (u8, (u128, u128, u128));

/// The fields of a session: what it is about, when it started and what came out of it.
pub type SessionFields = (
    (u64, ConfigFields, Vec<ValidatorFields>, Vec<ValidatorFields>),
    u64,
    Vec<u8>,
);

/// The variant that a number stands for.
pub open spec fn variant_of(number: u8) -> ConfigVariant {
    if number == 0 {
        ConfigVariant::Off
    } else if number == 1 {
        ConfigVariant::V2
    } else {
        ConfigVariant::Invalid
    }
}

/// The configuration with these fields.
pub open spec fn config_of(fields: ConfigFields) -> RandomnessConfigData {
    RandomnessConfigData {
        variant: variant_of(fields.0),
        config_v2: ConfigV2Data {
            secrecy_threshold: fields.1.0,
            reconstruction_threshold: fields.1.1,
            fast_path_secrecy_threshold: fields.1.2,
        },
    }
}

/// The validator with these fields.
pub open spec fn validator_of(fields: ValidatorFields) -> ValidatorView {
    ValidatorView {
        validator: fields.0,
        consensus_pubkey: fields.1@,
        consensus_pop: fields.2@,
        voting_power: fields.3,
        validator_index: fields.4,
        network_addresses: fields.5@,
        fullnode_addresses: fields.6@,
    }
}

/// The validators with these fields.
pub open spec fn validators_of(fields: Seq<ValidatorFields>) -> Seq<ValidatorView> {
    fields.map_values(|v: ValidatorFields| validator_of(v))
}

/// The session with these fields.
pub open spec fn session_of(fields: SessionFields) -> SessionView {
    SessionView {
        metadata: MetadataView {
            dealer_epoch: fields.0.0,
            randomness_config: config_of(fields.0.1),
            dealer_validator_set: validators_of(fields.0.2@),
            target_validator_set: validators_of(fields.0.3@),
        },
        start_time_us: fields.1,
        transcript: fields.2@,
    }
}

/// The state with these fields, if there is one.
pub open spec fn state_of(fields: Option<(SessionFields, bool, SessionFields, bool)>) -> Option<StateView> {
    match fields {
        Some((last_completed, has_last_completed, in_progress, has_in_progress)) => Some(
            StateView {
                last_completed: session_of(last_completed),
                has_last_completed,
                in_progress: session_of(in_progress),
                has_in_progress,
            },
        ),
        None => None,
    }
}

/// The validators with these fields, if there are any.
pub open spec fn validator_list_of(fields: Option<Vec<ValidatorFields>>) -> Option<Seq<ValidatorView>> {
    match fields {
        Some(list) => Some(validators_of(list@)),
        None => None,
    }
}

/// The state of distributed key generation that `alloy_sol_types` decodes from what
/// `getDKGState()` returned, `None` where it does not decode.
pub uninterp spec fn decoded_dkg_state(data: Seq<u8>) -> Option<StateView>;

/// The validators that `alloy_sol_types` decodes from what a function that returns
/// `ValidatorConsensusInfo[]` returned, `None` where they do not decode.
pub uninterp spec fn decoded_validators(data: Seq<u8>) -> Option<Seq<ValidatorView>>;

/// `SolType::abi_decode_sequence` on what `getDKGState()` returns: the result depends on the
/// data alone. Addresses, bytes and integers come out as plain values.
#[verifier::external_body]
fn decode_state_fields(data: &Vec<u8>) -> (r: Option<(SessionFields, bool, SessionFields, bool)>)
    ensures
        state_of(r) == decoded_dkg_state(data@),
{
    let list = |vs: Vec<<AbiValidator as SolType>::RustType>| vs.into_iter().map(|v| (
        v.0.into_array(), v.1.to_vec(), v.2.to_vec(), v.3.into_limbs(), v.4, v.5.to_vec(), v.6.to_vec(),
    )).collect();
    let session = |(m, t, x): <AbiSession as SolType>::RustType| ((m.0, m.1, list(m.2), list(m.3)), t, x.to_vec());
    let (a, p, b, q) = <(AbiSession, sol_data::Bool, AbiSession, sol_data::Bool)>::abi_decode_sequence(data).ok()?;
    Some((session(a), p, session(b), q))
}

/// `SolType::abi_decode_sequence` on a list of validators: the result depends on the data
/// alone. Addresses, bytes and integers come out as plain values.
#[verifier::external_body]
fn decode_validator_fields(data: &Vec<u8>) -> (r: Option<Vec<ValidatorFields>>)
    ensures
        validator_list_of(r) == decoded_validators(data@),
{
    let (list,) = <(sol_data::Array<AbiValidator>,)>::abi_decode_sequence(data).ok()?;
    Some(list.into_iter().map(|v| (
        v.0.into_array(), v.1.to_vec(), v.2.to_vec(), v.3.into_limbs(), v.4, v.5.to_vec(), v.6.to_vec(),
    )).collect())
}

/// The variant that a number stands for.
pub fn config_variant(number: u8) -> (r: ConfigVariant)
    ensures
        r == variant_of(number),
        number == 0 ==> r is Off,
        number == 1 ==> r is V2,
        number > 1 ==> r is Invalid,
{
    match number {
        0 => ConfigVariant::Off,
        1 => ConfigVariant::V2,
        _ => ConfigVariant::Invalid,
    }
}

/// The configuration with these fields.
pub fn randomness_config(fields: &ConfigFields) -> (r: RandomnessConfigData)
    ensures
        r == config_of(*fields),
        fields.0 == 0 ==> r.variant is Off,
        fields.0 == 1 ==> r.variant is V2,
        fields.0 > 1 ==> r.variant is Invalid,
        r.config_v2.secrecy_threshold == fields.1.0,
        r.config_v2.reconstruction_threshold == fields.1.1,
        r.config_v2.fast_path_secrecy_threshold == fields.1.2,
{
    RandomnessConfigData {
        variant: config_variant(fields.0),
        config_v2: ConfigV2Data {
            secrecy_threshold: (fields.1).0,
            reconstruction_threshold: (fields.1).1,
            fast_path_secrecy_threshold: (fields.1).2,
        },
    }
}

/// The validators with these fields.
pub fn validators(fields: &Vec<ValidatorFields>) -> (r: Vec<ValidatorConsensusInfo>)
    ensures
        validators_view(r@) == validators_of(fields@),
        ({
            &&& r@.len() == fields@.len()
            &&& forall|i: int|
                #![trigger r@[i]]
                0 <= i < fields@.len() ==> {
                    &&& r@[i].validator == fields@[i].0
                    &&& r@[i].consensus_pubkey@ == fields@[i].1@
                    &&& r@[i].consensus_pop@ == fields@[i].2@
                    &&& r@[i].voting_power == fields@[i].3
                    &&& r@[i].validator_index == fields@[i].4
                    &&& r@[i].network_addresses@ == fields@[i].5@
                    &&& r@[i].fullnode_addresses@ == fields@[i].6@
                }
        }),
{
    let mut r: Vec<ValidatorConsensusInfo> = Vec::with_capacity(fields.len());
    let mut i: usize = 0;
    while i < fields.len()
        invariant
            i <= fields.len(),
            r@.len() == i,
            forall|j: int| 0 <= j < i ==> (#[trigger] r@[j])@ == validator_of(fields@[j]),
            forall|j: int|
                #![trigger r@[j]]
                0 <= j < i ==> {
                    &&& r@[j].validator == fields@[j].0
                    &&& r@[j].consensus_pubkey@ == fields@[j].1@
                    &&& r@[j].consensus_pop@ == fields@[j].2@
                    &&& r@[j].voting_power == fields@[j].3
                    &&& r@[j].validator_index == fields@[j].4
                    &&& r@[j].network_addresses@ == fields@[j].5@
                    &&& r@[j].fullnode_addresses@ == fields@[j].6@
                },
        decreases fields.len() - i,
    {
        let v = &fields[i];
        r.push(
            ValidatorConsensusInfo {
                validator: v.0,
                consensus_pubkey: copy_bytes(&v.1),
                consensus_pop: copy_bytes(&v.2),
                voting_power: v.3,
                validator_index: v.4,
                network_addresses: copy_bytes(&v.5),
                fullnode_addresses: copy_bytes(&v.6),
            },
        );
        i += 1;
    }
    assert(validators_view(r@) =~= validators_of(fields@));
    r
}

/// The session with these fields.
pub fn session_info(fields: SessionFields) -> (r: DKGSessionInfo)
    ensures
        r@ == session_of(fields),
        r.metadata.dealer_epoch == fields.0.0,
        r.metadata.randomness_config == config_of(fields.0.1),
        r.start_time_us == fields.1,
        r.transcript@ == fields.2@,
        ({
            &&& r.metadata.dealer_validator_set@.len() == fields.0.2@.len()
            &&& forall|i: int|
                #![trigger r.metadata.dealer_validator_set@[i]]
                0 <= i < fields.0.2@.len() ==> {
                    &&& r.metadata.dealer_validator_set@[i].validator == fields.0.2@[i].0
                    &&& r.metadata.dealer_validator_set@[i].consensus_pubkey@ == fields.0.2@[i].1@
                    &&& r.metadata.dealer_validator_set@[i].consensus_pop@ == fields.0.2@[i].2@
                    &&& r.metadata.dealer_validator_set@[i].voting_power == fields.0.2@[i].3
                    &&& r.metadata.dealer_validator_set@[i].validator_index == fields.0.2@[i].4
                    &&& r.metadata.dealer_validator_set@[i].network_addresses@ == fields.0.2@[i].5@
                    &&& r.metadata.dealer_validator_set@[i].fullnode_addresses@ == fields.0.2@[i].6@
                }
            &&& r.metadata.target_validator_set@.len() == fields.0.3@.len()
            &&& forall|i: int|
                #![trigger r.metadata.target_validator_set@[i]]
                0 <= i < fields.0.3@.len() ==> {
                    &&& r.metadata.target_validator_set@[i].validator == fields.0.3@[i].0
                    &&& r.metadata.target_validator_set@[i].consensus_pubkey@ == fields.0.3@[i].1@
                    &&& r.metadata.target_validator_set@[i].consensus_pop@ == fields.0.3@[i].2@
                    &&& r.metadata.target_validator_set@[i].voting_power == fields.0.3@[i].3
                    &&& r.metadata.target_validator_set@[i].validator_index == fields.0.3@[i].4
                    &&& r.metadata.target_validator_set@[i].network_addresses@ == fields.0.3@[i].5@
                    &&& r.metadata.target_validator_set@[i].fullnode_addresses@ == fields.0.3@[i].6@
                }
        }),
{
    let (metadata, start_time_us, transcript) = fields;
    DKGSessionInfo {
        metadata: DKGSessionMetadata {
            dealer_epoch: metadata.0,
            randomness_config: randomness_config(&metadata.1),
            dealer_validator_set: validators(&metadata.2),
            target_validator_set: validators(&metadata.3),
        },
        start_time_us,
        transcript,
    }
}

/// What is decoded has its fields in their places: the variant and the thresholds of a
/// configuration, and the fields of each validator of a list, which keeps its order.
pub proof fn law_fields_keep_their_places(
    config: ConfigFields,
    list: Seq<ValidatorFields>,
    session: SessionFields,
    i: int,
)
    ensures
        config.0 == 0 <==> config_of(config).variant is Off,
        config.0 == 1 <==> config_of(config).variant is V2,
        config_of(config).config_v2.secrecy_threshold == config.1.0,
        config_of(config).config_v2.reconstruction_threshold == config.1.1,
        config_of(config).config_v2.fast_path_secrecy_threshold == config.1.2,
        validators_of(list).len() == list.len(),
        0 <= i < list.len() ==> {
            let (made, fields) = (validators_of(list)[i], list[i]);
            &&& made.validator == fields.0
            &&& made.consensus_pubkey == fields.1@
            &&& made.consensus_pop == fields.2@
            &&& made.voting_power == fields.3
            &&& made.validator_index == fields.4
            &&& made.network_addresses == fields.5@
            &&& made.fullnode_addresses == fields.6@
        },
        session_of(session).metadata.dealer_epoch == session.0.0,
        session_of(session).metadata.randomness_config == config_of(session.0.1),
        session_of(session).metadata.dealer_validator_set == validators_of(session.0.2@),
        session_of(session).metadata.target_validator_set == validators_of(session.0.3@),
        session_of(session).start_time_us == session.1,
        session_of(session).transcript == session.2@,
{
}

/// A decoded state has its sessions in their places, each with its flag.
pub proof fn law_state_keeps_its_places(
    last_completed: SessionFields,
    has_last_completed: bool,
    in_progress: SessionFields,
    has_in_progress: bool,
)
    ensures
        state_of(
            Some((last_completed, has_last_completed, in_progress, has_in_progress)),
        ) matches Some(state) && {
            &&& state.last_completed == session_of(last_completed)
            &&& state.has_last_completed == has_last_completed
            &&& state.in_progress == session_of(in_progress)
            &&& state.has_in_progress == has_in_progress
        },
        state_of(None) is None,
        validator_list_of(None) is None,
        forall|list: Vec<ValidatorFields>| #[trigger]
            validator_list_of(Some(list)) == Some(validators_of(list@)),
{
}

/// The model of an optional state.
pub open spec fn state_view(state: Option<GetDKGStateReturn>) -> Option<StateView> {
    match state {
        Some(s) => Some(s@),
        None => None,
    }
}

/// Decodes what `getDKGState()` returned, `None` if it does not decode.
pub fn decode_dkg_state(data: &Vec<u8>) -> (r: Option<GetDKGStateReturn>)
    ensures
        state_view(r) == decoded_dkg_state(data@),
        r is Some <==> decoded_dkg_state(data@) is Some,
        r matches Some(state) ==> {
            let decoded = decoded_dkg_state(data@)->0;
            &&& state.has_last_completed == decoded.has_last_completed
            &&& state.has_in_progress == decoded.has_in_progress
            &&& state.last_completed@ == decoded.last_completed
            &&& state.in_progress@ == decoded.in_progress
        },
{
    match decode_state_fields(data) {
        Some((last_completed, has_last_completed, in_progress, has_in_progress)) => Some(
            GetDKGStateReturn {
                last_completed: session_info(last_completed),
                has_last_completed,
                in_progress: session_info(in_progress),
                has_in_progress,
            },
        ),
        None => None,
    }
}

/// The models of optional validators.
pub open spec fn validator_list_view(list: Option<Vec<ValidatorConsensusInfo>>) -> Option<Seq<ValidatorView>> {
    match list {
        Some(l) => Some(validators_view(l@)),
        None => None,
    }
}

/// Decodes the validators that a function returned, `None` if they do not decode.
pub fn decode_validators(data: &Vec<u8>) -> (r: Option<Vec<ValidatorConsensusInfo>>)
    ensures
        validator_list_view(r) == decoded_validators(data@),
        r is Some <==> decoded_validators(data@) is Some,
        r matches Some(list) ==> {
            let decoded = decoded_validators(data@)->0;
            &&& list@.len() == decoded.len()
            &&& forall|i: int| 0 <= i < decoded.len() ==> (#[trigger] list@[i])@ == decoded[i]
        },
{
    match decode_validator_fields(data) {
        Some(fields) => Some(validators(&fields)),
        None => None,
    }
}

/// The configuration that `getCurrentConfig()` of the randomness contract returned.
pub open spec fn decoded_config(data: Seq<u8>) -> Option<RandomnessConfigData> {
    match abi::returned_config(data) {
        Some(fields) => Some(config_of(fields)),
        None => None,
    }
}

/// Decodes what `getCurrentConfig()` of the randomness contract returned, `None` if it does
/// not decode.
pub fn decode_randomness_config(data: &Vec<u8>) -> (r: Option<RandomnessConfigData>)
    ensures
        r == decoded_config(data@),
{
    match abi::decode_config(data) {
        Some(fields) => Some(randomness_config(&fields)),
        None => None,
    }
}

} // verus!
