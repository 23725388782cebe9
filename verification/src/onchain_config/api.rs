//! On-chain configuration as the consensus layer takes it, and its encoding.
//!
//! The encoding is BCS: fields one after the other, integers with the least
//! significant byte first, and a length in front of every list. The bytes come from
//! the `bcs` crate; the spec functions here say what they are.

use vstd::prelude::*;

use super::abi;
use crate::primitives::copy_bytes;

verus! {

/// The most items that a list may have to be encoded.
pub const MAX_SEQUENCE_LENGTH: usize = 0x7fff_ffff;

/// A fixed-point number: `value` divided by two to the power of 64.
#[derive(Clone, Copy, Debug, PartialEq, Eq, Structural)]
pub struct FixedPoint64 {
    /// The number times two to the power of 64.
    pub value: u128,
}

/// Which configuration of randomness is in force.
#[derive(Clone, Copy, Debug, PartialEq, Eq, Structural)]
pub enum ConfigVariant {
    /// The first one, which stands for randomness switched off.
    V1,
    /// The one with a fast path.
    V2,
}

/// Thresholds without a fast path.
#[derive(Clone, Copy, Debug, PartialEq, Eq, Structural)]
pub struct ConfigV1 {
    /// How much stake must not be able to learn the secret.
    pub secrecy_threshold: FixedPoint64,
    /// How much stake can reconstruct the secret.
    pub reconstruction_threshold: FixedPoint64,
}

/// Thresholds with a fast path.
#[derive(Clone, Copy, Debug, PartialEq, Eq, Structural)]
pub struct ConfigV2 {
    /// How much stake must not be able to learn the secret.
    pub secrecy_threshold: FixedPoint64,
    /// How much stake can reconstruct the secret.
    pub reconstruction_threshold: FixedPoint64,
    /// How much stake must not be able to learn the secret on the fast path.
    pub fast_path_secrecy_threshold: FixedPoint64,
}

/// The configuration of randomness.
#[derive(Clone, Copy, Debug, PartialEq, Eq, Structural)]
pub struct RandomnessConfigData {
    /// Which of the two is in force.
    pub variant: ConfigVariant,
    /// The one without a fast path.
    pub config_v1: ConfigV1,
    /// The one with a fast path.
    pub config_v2: ConfigV2,
}

/// A validator.
#[derive(Debug)]
pub struct ValidatorConsensusInfo {
    /// Its address.
    pub addr: [u8; 32],
    /// Its public key.
    pub pk_bytes: Vec<u8>,
    /// Its voting power in whole tokens.
    pub voting_power: u64,
}

/// What a session of distributed key generation is about.
#[derive(Debug)]
pub struct DKGSessionMetadata {
    /// The epoch of those who deal.
    pub dealer_epoch: u64,
    /// The configuration of randomness.
    pub randomness_config: RandomnessConfigData,
    /// Those who deal.
    pub dealer_validator_set: Vec<ValidatorConsensusInfo>,
    /// Those who receive.
    pub target_validator_set: Vec<ValidatorConsensusInfo>,
}

/// A session of distributed key generation.
#[derive(Debug)]
pub struct DKGSessionState {
    /// What it is about.
    pub metadata: DKGSessionMetadata,
    /// When it started, in microseconds since the epoch.
    pub start_time_us: u64,
    /// What came out of it.
    pub transcript: Vec<u8>,
}

/// The state of distributed key generation.
#[derive(Debug)]
pub struct DKGState {
    /// The last session that completed.
    pub last_completed: Option<DKGSessionState>,
    /// The session that is in progress.
    pub in_progress: Option<DKGSessionState>,
}

/// A session of distributed key generation started.
#[derive(Debug)]
pub struct DKGStartEvent {
    /// What the session is about.
    pub session_metadata: DKGSessionMetadata,
    /// When it started, in microseconds since the epoch.
    pub start_time_us: u64,
}

/// The result of distributed key generation.
#[derive(Debug)]
pub struct DKGTranscript {
    /// The encoded result.
    pub transcript_bytes: Vec<u8>,
}

/// The model of a [`ValidatorConsensusInfo`].
#[verifier::ext_equal]
pub struct ValidatorView {
    pub addr: Seq<u8>,
    pub pk_bytes: Seq<u8>,
    pub voting_power: u64,
}

/// The model of [`DKGSessionMetadata`].
#[verifier::ext_equal]
pub struct MetadataView {
    pub dealer_epoch: u64,
    pub randomness_config: RandomnessConfigData,
    pub dealer_validator_set: Seq<ValidatorView>,
    pub target_validator_set: Seq<ValidatorView>,
}

/// The model of a [`DKGSessionState`].
#[verifier::ext_equal]
pub struct SessionView {
    pub metadata: MetadataView,
    pub start_time_us: u64,
    pub transcript: Seq<u8>,
}

/// The model of a [`DKGState`].
#[verifier::ext_equal]
pub struct StateView {
    pub last_completed: Option<SessionView>,
    pub in_progress: Option<SessionView>,
}

impl View for ValidatorConsensusInfo {
    type V = ValidatorView;

    open spec fn view(&self) -> ValidatorView {
        ValidatorView {
            addr: self.addr@,
            pk_bytes: self.pk_bytes@,
            voting_power: self.voting_power,
        }
    }
}

/// The models of `validators`.
pub open spec fn validators_view(validators: Seq<ValidatorConsensusInfo>) -> Seq<ValidatorView> {
    validators.map_values(|v: ValidatorConsensusInfo| v@)
}

impl View for DKGSessionMetadata {
    type V = MetadataView;

    open spec fn view(&self) -> MetadataView {
        MetadataView {
            dealer_epoch: self.dealer_epoch,
            randomness_config: self.randomness_config,
            dealer_validator_set: validators_view(self.dealer_validator_set@),
            target_validator_set: validators_view(self.target_validator_set@),
        }
    }
}

impl View for DKGSessionState {
    type V = SessionView;

    open spec fn view(&self) -> SessionView {
        SessionView {
            metadata: self.metadata@,
            start_time_us: self.start_time_us,
            transcript: self.transcript@,
        }
    }
}

/// The model of an optional session.
pub open spec fn session_view(session: Option<DKGSessionState>) -> Option<SessionView> {
    match session {
        Some(s) => Some(s@),
        None => None,
    }
}

impl View for DKGState {
    type V = StateView;

    open spec fn view(&self) -> StateView {
        StateView {
            last_completed: session_view(self.last_completed),
            in_progress: session_view(self.in_progress),
        }
    }
}

/// The last `len` bytes of `n`, the least significant first.
pub open spec fn le_bytes(n: nat, len: nat) -> Seq<u8>
    decreases len,
{
    if len == 0 {
        Seq::empty()
    } else {
        seq![(n % 256) as u8] + le_bytes(n / 256, (len - 1) as nat)
    }
}

/// The length of a list: seven bits in each byte, the least significant first, and the eighth
/// bit set in every byte but the last.
pub open spec fn encoded_len(n: nat) -> Seq<u8>
    decreases n,
{
    if n < 128 {
        seq![n as u8]
    } else {
        seq![(n % 128 + 128) as u8] + encoded_len(n / 128)
    }
}

/// A list of bytes: the length and the bytes.
pub open spec fn encoded_byte_list(bytes: Seq<u8>) -> Seq<u8> {
    encoded_len(bytes.len()) + bytes
}

/// A fixed-point number: 16 bytes.
pub open spec fn encoded_fixed_point(x: FixedPoint64) -> Seq<u8> {
    le_bytes(x.value as nat, 16)
}

/// The number of a variant: one byte.
pub open spec fn variant_index(variant: ConfigVariant) -> u8 {
    match variant {
        ConfigVariant::V1 => 0,
        ConfigVariant::V2 => 1,
    }
}

/// The configuration of randomness: the variant and both sets of thresholds.
pub open spec fn encoded_config(config: RandomnessConfigData) -> Seq<u8> {
    seq![variant_index(config.variant)] + encoded_fixed_point(config.config_v1.secrecy_threshold)
        + encoded_fixed_point(config.config_v1.reconstruction_threshold) + encoded_fixed_point(
        config.config_v2.secrecy_threshold,
    ) + encoded_fixed_point(config.config_v2.reconstruction_threshold) + encoded_fixed_point(
        config.config_v2.fast_path_secrecy_threshold,
    )
}

/// A validator: its address, its public key and its voting power.
pub open spec fn encoded_validator(validator: ValidatorView) -> Seq<u8> {
    validator.addr + encoded_byte_list(validator.pk_bytes) + le_bytes(
        validator.voting_power as nat,
        8,
    )
}

/// Validators, one after the other.
pub open spec fn encoded_validators(validators: Seq<ValidatorView>) -> Seq<u8>
    decreases validators.len(),
{
    if validators.len() == 0 {
        Seq::empty()
    } else {
        encoded_validator(validators[0]) + encoded_validators(validators.drop_first())
    }
}

/// What a session is about.
pub open spec fn encoded_metadata(metadata: MetadataView) -> Seq<u8> {
    le_bytes(metadata.dealer_epoch as nat, 8) + encoded_config(metadata.randomness_config)
        + encoded_len(metadata.dealer_validator_set.len()) + encoded_validators(
        metadata.dealer_validator_set,
    ) + encoded_len(metadata.target_validator_set.len()) + encoded_validators(
        metadata.target_validator_set,
    )
}

/// A session that may be there: a byte that says whether it is, and the session.
pub open spec fn encoded_session(session: Option<SessionView>) -> Seq<u8> {
    match session {
        None => seq![0u8],
        Some(s) => seq![1u8] + encoded_metadata(s.metadata) + le_bytes(s.start_time_us as nat, 8)
            + encoded_byte_list(s.transcript),
    }
}

/// The state of distributed key generation.
pub open spec fn encoded_state(state: StateView) -> Seq<u8> {
    encoded_session(state.last_completed) + encoded_session(state.in_progress)
}

/// Whether a list of validators is short enough to be encoded, and so are their keys.
pub open spec fn encodable_validators(validators: Seq<ValidatorView>) -> bool {
    &&& validators.len() <= MAX_SEQUENCE_LENGTH
    &&& forall|i: int|
        0 <= i < validators.len() ==> (#[trigger] validators[i]).pk_bytes.len()
            <= MAX_SEQUENCE_LENGTH
}

/// Whether every list of a session is short enough to be encoded.
pub open spec fn encodable_session(session: Option<SessionView>) -> bool {
    session matches Some(s) ==> {
        &&& encodable_validators(s.metadata.dealer_validator_set)
        &&& encodable_validators(s.metadata.target_validator_set)
        &&& s.transcript.len() <= MAX_SEQUENCE_LENGTH
    }
}

/// Whether every list of a state is short enough to be encoded.
pub open spec fn encodable_state(state: StateView) -> bool {
    encodable_session(state.last_completed) && encodable_session(state.in_progress)
}

/// The encoded state, `None` where a list is too long.
pub open spec fn state_bytes(state: StateView) -> Option<Seq<u8>> {
    if encodable_state(state) {
        Some(encoded_state(state))
    } else {
        None
    }
}

/// The fields of a validator: address, public key and voting power.
pub type ValidatorFields = ([u8; 32], Vec<u8>, u64);

/// The fields of a randomness configuration: the variant and both sets of thresholds.
pub type ConfigFields = (u8, (u128, u128), (u128, u128, u128));

/// The fields of a session: what it is about, when it started and what came out of it.
pub type SessionFields = (
    (u64, ConfigFields, Vec<ValidatorFields>, Vec<ValidatorFields>),
    u64,
    Vec<u8>,
);

/// The validator with these fields.
pub open spec fn validator_of(fields: ValidatorFields) -> ValidatorView {
    ValidatorView { addr: fields.0@, pk_bytes: fields.1@, voting_power: fields.2 }
}

/// The configuration with these fields.
pub open spec fn config_of(fields: ConfigFields) -> RandomnessConfigData {
    RandomnessConfigData {
        variant: if fields.0 == 0 {
            ConfigVariant::V1
        } else {
            ConfigVariant::V2
        },
        config_v1: ConfigV1 {
            secrecy_threshold: FixedPoint64 { value: fields.1.0 },
            reconstruction_threshold: FixedPoint64 { value: fields.1.1 },
        },
        config_v2: ConfigV2 {
            secrecy_threshold: FixedPoint64 { value: fields.2.0 },
            reconstruction_threshold: FixedPoint64 { value: fields.2.1 },
            fast_path_secrecy_threshold: FixedPoint64 { value: fields.2.2 },
        },
    }
}

/// The session with these fields.
pub open spec fn session_of(fields: Option<SessionFields>) -> Option<SessionView> {
    match fields {
        Some(f) => Some(
            SessionView {
                metadata: MetadataView {
                    dealer_epoch: f.0.0,
                    randomness_config: config_of(f.0.1),
                    dealer_validator_set: f.0.2@.map_values(|v: ValidatorFields| validator_of(v)),
                    target_validator_set: f.0.3@.map_values(|v: ValidatorFields| validator_of(v)),
                },
                start_time_us: f.1,
                transcript: f.2@,
            },
        ),
        None => None,
    }
}

/// The state whose sessions have these fields.
pub open spec fn state_of(fields: (Option<SessionFields>, Option<SessionFields>)) -> StateView {
    StateView { last_completed: session_of(fields.0), in_progress: session_of(fields.1) }
}

/// Whether the variant is written as one of the numbers that stand for a variant.
pub open spec fn is_config(fields: ConfigFields) -> bool {
    fields.0 <= 1
}

/// Whether a session, if there is one, has a configuration.
pub open spec fn is_session(fields: Option<SessionFields>) -> bool {
    fields matches Some(f) ==> is_config(f.0.1)
}

/// What is encoded has its fields in their places: the variant and the thresholds of a
/// configuration, and address, key and voting power of each validator of a list.
pub proof fn law_fields_keep_their_places(config: ConfigFields, session: SessionFields, i: int)
    requires
        config.0 <= 1,
    ensures
        config.0 == 0 <==> config_of(config).variant is V1,
        config.0 == 1 <==> config_of(config).variant is V2,
        config.1.0 == config_of(config).config_v1.secrecy_threshold.value,
        config.1.1 == config_of(config).config_v1.reconstruction_threshold.value,
        config.2.0 == config_of(config).config_v2.secrecy_threshold.value,
        config.2.1 == config_of(config).config_v2.reconstruction_threshold.value,
        config.2.2 == config_of(config).config_v2.fast_path_secrecy_threshold.value,
        session_of(None) is None,
        session_of(Some(session)) matches Some(s) && {
            &&& s.metadata.dealer_epoch == session.0.0
            &&& s.metadata.randomness_config == config_of(session.0.1)
            &&& s.start_time_us == session.1
            &&& s.transcript == session.2@
            &&& s.metadata.dealer_validator_set.len() == session.0.2@.len()
            &&& 0 <= i < session.0.2@.len() ==> {
                let (made, fields) = (s.metadata.dealer_validator_set[i], session.0.2@[i]);
                made.addr == fields.0@ && made.pk_bytes == fields.1@ && made.voting_power
                    == fields.2
            }
            &&& s.metadata.target_validator_set.len() == session.0.3@.len()
            &&& 0 <= i < session.0.3@.len() ==> {
                let (made, fields) = (s.metadata.target_validator_set[i], session.0.3@[i]);
                made.addr == fields.0@ && made.pk_bytes == fields.1@ && made.voting_power
                    == fields.2
            }
        },
        state_of((Some(session), None)).last_completed == session_of(Some(session)),
        state_of((Some(session), None)).in_progress is None,
        state_of((None, Some(session))).last_completed is None,
        state_of((None, Some(session))).in_progress == session_of(Some(session)),
{
}

/// A state is encoded unless a list in a session that is there has more than 2147483647 items:
/// validators who deal, validators who receive, the bytes of a key of either, or those of the
/// transcript.
pub proof fn law_state_is_encoded_unless_too_long(state: StateView)
    ensures
        ({
            let fits = |session: Option<SessionView>|
                session matches Some(s) ==> {
                    &&& s.metadata.dealer_validator_set.len() <= 0x7fff_ffff
                    &&& s.metadata.target_validator_set.len() <= 0x7fff_ffff
                    &&& s.transcript.len() <= 0x7fff_ffff
                    &&& forall|i: int|
                        0 <= i < s.metadata.dealer_validator_set.len() ==> (
                        #[trigger] s.metadata.dealer_validator_set[i]).pk_bytes.len() <= 0x7fff_ffff
                    &&& forall|i: int|
                        0 <= i < s.metadata.target_validator_set.len() ==> (
                        #[trigger] s.metadata.target_validator_set[i]).pk_bytes.len() <= 0x7fff_ffff
                };
            &&& encodable_state(state) <==> fits(state.last_completed) && fits(state.in_progress)
            &&& state_bytes(state) is Some <==> fits(state.last_completed) && fits(
                state.in_progress,
            )
            &&& state_bytes(state) matches Some(bytes) ==> bytes == encoded_session(
                state.last_completed,
            ) + encoded_session(state.in_progress)
        }),
{
}

/// `bcs::to_bytes` on the fields of a configuration. Nothing in it can be too long.
#[verifier::external_body]
fn config_to_bytes(fields: &ConfigFields) -> (r: Option<Vec<u8>>)
    requires
        is_config(*fields),
    ensures
        abi::bytes_of(r) == Some(encoded_config(config_of(*fields))),
{
    bcs::to_bytes(fields).ok()
}

/// `bcs::to_bytes` on the fields of two optional sessions. It fails where a list is longer than
/// [`MAX_SEQUENCE_LENGTH`], and only there.
#[verifier::external_body]
fn sessions_to_bytes(fields: &(Option<SessionFields>, Option<SessionFields>)) -> (r: Option<Vec<u8>>)
    requires
        is_session(fields.0),
        is_session(fields.1),
    ensures
        abi::bytes_of(r) == state_bytes(state_of(*fields)),
{
    bcs::to_bytes(fields).ok()
}

/// The fields of a configuration.
fn config_fields(config: &RandomnessConfigData) -> (r: ConfigFields)
    ensures
        is_config(r),
        config_of(r) == *config,
        r.0 == 0 <==> config.variant is V1,
        r.0 == 1 <==> config.variant is V2,
        r.1.0 == config.config_v1.secrecy_threshold.value,
        r.1.1 == config.config_v1.reconstruction_threshold.value,
        r.2.0 == config.config_v2.secrecy_threshold.value,
        r.2.1 == config.config_v2.reconstruction_threshold.value,
        r.2.2 == config.config_v2.fast_path_secrecy_threshold.value,
{
    let variant: u8 = match config.variant {
        ConfigVariant::V1 => 0,
        ConfigVariant::V2 => 1,
    };
    (
        variant,
        (config.config_v1.secrecy_threshold.value, config.config_v1.reconstruction_threshold.value),
        (
            config.config_v2.secrecy_threshold.value,
            config.config_v2.reconstruction_threshold.value,
            config.config_v2.fast_path_secrecy_threshold.value,
        ),
    )
}

/// The fields of each validator.
fn validators_fields(validators: &Vec<ValidatorConsensusInfo>) -> (r: Vec<ValidatorFields>)
    ensures
        r@.map_values(|v: ValidatorFields| validator_of(v)) == validators_view(validators@),
        ({
            &&& r@.len() == validators@.len()
            &&& forall|i: int|
                #![trigger r@[i]]
                0 <= i < validators@.len() ==> {
                    &&& r@[i].0@ == validators@[i].addr@
                    &&& r@[i].1@ == validators@[i].pk_bytes@
                    &&& r@[i].2 == validators@[i].voting_power
                }
        }),
{
    let mut r: Vec<ValidatorFields> = Vec::with_capacity(validators.len());
    let mut i: usize = 0;
    while i < validators.len()
        invariant
            i <= validators.len(),
            r@.len() == i,
            forall|j: int| 0 <= j < i ==> validator_of(#[trigger] r@[j]) == validators@[j]@,
            forall|j: int|
                #![trigger r@[j]]
                0 <= j < i ==> {
                    &&& r@[j].0@ == validators@[j].addr@
                    &&& r@[j].1@ == validators@[j].pk_bytes@
                    &&& r@[j].2 == validators@[j].voting_power
                },
        decreases validators.len() - i,
    {
        let v = &validators[i];
        r.push((v.addr, copy_bytes(&v.pk_bytes), v.voting_power));
        i += 1;
    }
    assert(r@.map_values(|v: ValidatorFields| validator_of(v)) =~= validators_view(validators@));
    r
}

/// The fields of a session.
fn session_fields(session: &Option<DKGSessionState>) -> (r: Option<SessionFields>)
    ensures
        is_session(r),
        session_of(r) == session_view(*session),
        r is Some <==> session is Some,
        r matches Some(f) ==> {
            let s = session->0;
            &&& f.0.0 == s.metadata.dealer_epoch
            &&& config_of(f.0.1) == s.metadata.randomness_config
            &&& f.1 == s.start_time_us
            &&& f.2@ == s.transcript@
            &&& f.0.2@.len() == s.metadata.dealer_validator_set@.len()
            &&& forall|i: int|
                #![trigger f.0.2@[i]]
                0 <= i < s.metadata.dealer_validator_set@.len() ==> {
                    &&& f.0.2@[i].0@ == s.metadata.dealer_validator_set@[i].addr@
                    &&& f.0.2@[i].1@ == s.metadata.dealer_validator_set@[i].pk_bytes@
                    &&& f.0.2@[i].2 == s.metadata.dealer_validator_set@[i].voting_power
                }
            &&& f.0.3@.len() == s.metadata.target_validator_set@.len()
            &&& forall|i: int|
                #![trigger f.0.3@[i]]
                0 <= i < s.metadata.target_validator_set@.len() ==> {
                    &&& f.0.3@[i].0@ == s.metadata.target_validator_set@[i].addr@
                    &&& f.0.3@[i].1@ == s.metadata.target_validator_set@[i].pk_bytes@
                    &&& f.0.3@[i].2 == s.metadata.target_validator_set@[i].voting_power
                }
        },
{
    match session {
        Some(s) => Some(
            (
                (
                    s.metadata.dealer_epoch,
                    config_fields(&s.metadata.randomness_config),
                    validators_fields(&s.metadata.dealer_validator_set),
                    validators_fields(&s.metadata.target_validator_set),
                ),
                s.start_time_us,
                copy_bytes(&s.transcript),
            ),
        ),
        None => None,
    }
}

impl RandomnessConfigData {
    /// The encoded configuration.
    pub fn to_bytes(&self) -> (r: Vec<u8>)
        ensures
            r@ == encoded_config(*self),
    {
        config_to_bytes(&config_fields(self)).unwrap()
    }
}

impl DKGState {
    /// The encoded state, `None` if a list in it is too long to be encoded.
    pub fn to_bytes(&self) -> (r: Option<Vec<u8>>)
        ensures
            abi::bytes_of(r) == state_bytes(self@),
    {
        sessions_to_bytes(&(session_fields(&self.last_completed), session_fields(&self.in_progress)))
    }
}

} // verus!
