use alloy_primitives::{Address, Bytes, U256};
use alloy_sol_types::{sol_data, SolType};
use block_pipeline::execution::{Transaction, TxKind};
use block_pipeline::onchain_config::api;
use block_pipeline::onchain_config::base::{Fetched, OnchainConfigFetcher, SystemAddresses};
use block_pipeline::onchain_config::dkg::{
    construct_dkg_transaction, convert_dkg_session_metadata, convert_dkg_start_event_to_api,
    convert_dkg_state_to_bcs, convert_randomness_config, convert_randomness_config_to_bcs,
    convert_validator, encode_dkg_state, DKGStateFetcher, RandomnessConfigFetcher,
};
use block_pipeline::onchain_config::types::{
    config_variant, decode_dkg_state, decode_validators, ConfigV2Data, ConfigVariant, DKGSessionInfo,
    DKGSessionMetadata, DKGStartEvent, GetDKGStateReturn, RandomnessConfigData,
    ValidatorConsensusInfo,
};

type AbiValidator = (
    sol_data::Address,
    sol_data::Bytes,
    sol_data::Bytes,
    sol_data::Uint<256>,
    sol_data::Uint<64>,
    sol_data::Bytes,
    sol_data::Bytes,
);
type AbiConfig =
    (sol_data::Uint<8>, (sol_data::Uint<128>, sol_data::Uint<128>, sol_data::Uint<128>));
type AbiSession = (
    (sol_data::Uint<64>, AbiConfig, sol_data::Array<AbiValidator>, sol_data::Array<AbiValidator>),
    sol_data::Uint<64>,
    sol_data::Bytes,
);
type AbiState = (AbiSession, sol_data::Bool, AbiSession, sol_data::Bool);

const TOKEN: u64 = 1_000_000_000_000_000_000;

fn config(variant: ConfigVariant) -> RandomnessConfigData {
    RandomnessConfigData {
        variant,
        config_v2: ConfigV2Data {
            secrecy_threshold: 1,
            reconstruction_threshold: 2,
            fast_path_secrecy_threshold: 0x0102,
        },
    }
}

fn validator(wei: [u64; 4]) -> ValidatorConsensusInfo {
    ValidatorConsensusInfo {
        validator: [7; 20],
        consensus_pubkey: vec![1, 2, 3],
        consensus_pop: vec![4],
        voting_power: wei,
        validator_index: 5,
        network_addresses: vec![6],
        fullnode_addresses: vec![],
    }
}

fn session(variant: ConfigVariant) -> DKGSessionInfo {
    DKGSessionInfo {
        metadata: DKGSessionMetadata {
            dealer_epoch: 9,
            randomness_config: config(variant),
            dealer_validator_set: vec![validator([2 * TOKEN, 0, 0, 0])],
            target_validator_set: vec![],
        },
        start_time_us: 11,
        transcript: vec![0xaa, 0xbb],
    }
}

fn state(last: Option<ConfigVariant>, current: Option<ConfigVariant>) -> GetDKGStateReturn {
    GetDKGStateReturn {
        last_completed: session(last.unwrap_or(ConfigVariant::Invalid)),
        has_last_completed: last.is_some(),
        in_progress: session(current.unwrap_or(ConfigVariant::Invalid)),
        has_in_progress: current.is_some(),
    }
}

fn le(value: u128) -> Vec<u8> {
    value.to_le_bytes().to_vec()
}

fn config_bytes(variant: u8) -> Vec<u8> {
    let mut bytes = vec![variant];
    for value in [0, 0, 1, 2, 0x0102] {
        bytes.extend(le(value));
    }
    bytes
}

fn session_bytes(variant: u8) -> Vec<u8> {
    let mut bytes = vec![1];
    bytes.extend(9u64.to_le_bytes());
    bytes.extend(config_bytes(variant));
    bytes.push(1);
    bytes.extend([0; 12]);
    bytes.extend([7; 20]);
    bytes.extend([3, 1, 2, 3]);
    bytes.extend(2u64.to_le_bytes());
    bytes.push(0);
    bytes.extend(11u64.to_le_bytes());
    bytes.extend([2, 0xaa, 0xbb]);
    bytes
}

fn abi_validator() -> (Address, Bytes, Bytes, U256, u64, Bytes, Bytes) {
    (
        Address::from([7; 20]),
        Bytes::from(vec![1, 2, 3]),
        Bytes::from(vec![4]),
        U256::from(2 * TOKEN),
        5,
        Bytes::from(vec![6]),
        Bytes::new(),
    )
}

fn abi_state(variant: u8, has_last: bool, has_current: bool) -> Vec<u8> {
    let session = || -> <AbiSession as SolType>::RustType {
        (
            (9u64, (variant, (1u128, 2u128, 0x0102u128)), vec![abi_validator()], vec![]),
            11u64,
            Bytes::from(vec![0xaa, 0xbb]),
        )
    };
    AbiState::abi_encode_sequence(&(session(), has_last, session(), has_current))
}

fn addresses() -> SystemAddresses {
    SystemAddresses {
        system_caller: [1; 20],
        block: [2; 20],
        consensus_config: [3; 20],
        randomness_config: [4; 20],
        dkg: [5; 20],
        reconfiguration_with_dkg: [6; 20],
        validator_manager: [7; 20],
    }
}

fn base() -> OnchainConfigFetcher<()> {
    OnchainConfigFetcher { eth_api: (), addresses: addresses() }
}

#[test]
fn test_dkg_conversion() {
    assert_eq!(convert_dkg_state_to_bcs(&state(None, None)), vec![0, 0]);

    let mut expected = session_bytes(0);
    expected.push(0);
    assert_eq!(convert_dkg_state_to_bcs(&state(Some(ConfigVariant::Off), None)), expected);

    let mut expected = vec![0];
    expected.extend(session_bytes(1));
    assert_eq!(convert_dkg_state_to_bcs(&state(None, Some(ConfigVariant::V2))), expected);
}

#[test]
fn randomness_config_is_converted() {
    let off = convert_randomness_config(&config(ConfigVariant::Off));
    assert_eq!(off.variant, api::ConfigVariant::V1);
    assert_eq!(off.config_v1.secrecy_threshold.value, 0);
    assert_eq!(off.config_v1.reconstruction_threshold.value, 0);
    assert_eq!(off.config_v2.secrecy_threshold.value, 1);
    assert_eq!(off.config_v2.reconstruction_threshold.value, 2);
    assert_eq!(off.config_v2.fast_path_secrecy_threshold.value, 0x0102);
    let v2 = convert_randomness_config(&config(ConfigVariant::V2));
    assert_eq!(v2.variant, api::ConfigVariant::V2);
    assert_eq!(convert_randomness_config_to_bcs(&config(ConfigVariant::Off)), config_bytes(0));
    assert_eq!(convert_randomness_config_to_bcs(&config(ConfigVariant::V2)), config_bytes(1));
}

#[test]
fn validator_is_converted() {
    let converted = convert_validator(&validator([2 * TOKEN, 0, 0, 0]));
    assert_eq!(converted.addr[..12], [0; 12]);
    assert_eq!(converted.addr[12..], [7; 20]);
    assert_eq!(converted.pk_bytes, vec![1, 2, 3]);
    assert_eq!(converted.voting_power, 2);
}

#[test]
fn padded_addresses_differ() {
    let mut other = validator([0, 0, 0, 0]);
    other.validator[19] = 8;
    let a = convert_validator(&validator([0, 0, 0, 0])).addr;
    assert_ne!(a, convert_validator(&other).addr);
}

#[test]
fn voting_power_is_in_whole_tokens() {
    let power = |wei: [u64; 4]| convert_validator(&validator(wei)).voting_power;
    assert_eq!(power([0, 0, 0, 0]), 0);
    assert_eq!(power([TOKEN - 1, 0, 0, 0]), 0);
    assert_eq!(power([TOKEN, 0, 0, 0]), 1);
    assert_eq!(power([TOKEN + 1, 0, 0, 0]), 1);
    // Two to the power of 64 wei.
    assert_eq!(power([0, 1, 0, 0]), 18);
    assert_eq!(power([0, TOKEN, 0, 0]), u64::MAX);
    assert_eq!(power([u64::MAX, TOKEN - 1, 0, 0]), u64::MAX);
    assert_eq!(power([0, TOKEN - 1, 0, 0]), u64::MAX - 18);
    assert_eq!(power([u64::MAX; 4]), u64::MAX);
}

#[test]
fn start_event_is_converted() {
    let event = DKGStartEvent {
        dealer_epoch: 9,
        start_time_us: 33,
        metadata: session(ConfigVariant::V2).metadata,
    };
    let converted = convert_dkg_start_event_to_api(&event);
    assert_eq!(converted.start_time_us, 33);
    assert_eq!(converted.session_metadata.dealer_epoch, 9);
    assert_eq!(converted.session_metadata.dealer_validator_set.len(), 1);
    assert_eq!(converted.session_metadata.dealer_validator_set[0].voting_power, 2);
    assert_eq!(converted.session_metadata.target_validator_set.len(), 0);

    let metadata = convert_dkg_session_metadata(&session(ConfigVariant::V2).metadata);
    assert_eq!(metadata.randomness_config, converted.session_metadata.randomness_config);
}

#[test]
fn unknown_variant_is_not_encoded() {
    assert!(encode_dkg_state(&state(Some(ConfigVariant::Invalid), None)).is_none());
    assert!(encode_dkg_state(&state(None, Some(ConfigVariant::Invalid))).is_none());
    assert_eq!(encode_dkg_state(&state(None, None)), Some(vec![0, 0]));
}

#[test]
fn variants_have_numbers() {
    assert_eq!(config_variant(0), ConfigVariant::Off);
    assert_eq!(config_variant(1), ConfigVariant::V2);
    assert_eq!(config_variant(2), ConfigVariant::Invalid);
    assert_eq!(config_variant(255), ConfigVariant::Invalid);
}

#[test]
fn state_is_decoded() {
    let decoded = decode_dkg_state(&abi_state(1, true, false)).unwrap();
    assert!(decoded.has_last_completed);
    assert!(!decoded.has_in_progress);
    assert_eq!(decoded.last_completed.start_time_us, 11);
    assert_eq!(decoded.last_completed.transcript, vec![0xaa, 0xbb]);
    let metadata = &decoded.last_completed.metadata;
    assert_eq!(metadata.dealer_epoch, 9);
    assert_eq!(metadata.randomness_config, config(ConfigVariant::V2));
    assert_eq!(metadata.target_validator_set.len(), 0);
    let dealer = &metadata.dealer_validator_set[0];
    assert_eq!(dealer.validator, [7; 20]);
    assert_eq!(dealer.consensus_pubkey, vec![1, 2, 3]);
    assert_eq!(dealer.consensus_pop, vec![4]);
    assert_eq!(dealer.voting_power, [2 * TOKEN, 0, 0, 0]);
    assert_eq!(dealer.validator_index, 5);
    assert_eq!(dealer.network_addresses, vec![6]);
    assert_eq!(dealer.fullnode_addresses, Vec::<u8>::new());
    assert!(decode_dkg_state(&vec![]).is_none());
}

#[test]
fn validators_are_decoded() {
    let data = <(sol_data::Array<AbiValidator>,)>::abi_encode_sequence(&(vec![abi_validator()],));
    let decoded = decode_validators(&data).unwrap();
    assert_eq!(decoded.len(), 1);
    assert_eq!(decoded[0].validator, [7; 20]);
    assert_eq!(decoded[0].consensus_pubkey, vec![1, 2, 3]);
    assert!(decode_validators(&data[..64].to_vec()).is_none());
}

#[test]
fn dkg_state_is_fetched() {
    let base = base();
    let fetcher = DKGStateFetcher::new(&base);
    assert_eq!(fetcher.contract_address(), [5; 20]);
    assert_eq!(fetcher.caller_address(), [1; 20]);
    let request = fetcher.request();
    assert_eq!(request.from, [1; 20]);
    assert_eq!(request.to, [5; 20]);
    assert_eq!(request.input, vec![0xbd, 0x7d, 0x9c, 0x9f]);

    let mut expected = session_bytes(1);
    expected.push(0);
    match fetcher.fetch(Some(abi_state(1, true, false))) {
        Fetched::Config(bytes) => assert_eq!(bytes, expected),
        _ => panic!("the state is valid"),
    }
    assert!(matches!(fetcher.fetch(Some(abi_state(2, false, true))), Fetched::Invalid));
    assert!(matches!(fetcher.fetch(Some(abi_state(2, false, false))), Fetched::Config(_)));
    assert!(matches!(fetcher.fetch(Some(vec![1, 2, 3])), Fetched::Unavailable));
    assert!(matches!(fetcher.fetch(None), Fetched::Unavailable));
}

#[test]
fn randomness_config_is_fetched() {
    let base = base();
    let fetcher = RandomnessConfigFetcher::new(&base);
    assert_eq!(fetcher.contract_address(), [4; 20]);
    assert_eq!(fetcher.caller_address(), [1; 20]);
    let request = fetcher.request();
    assert_eq!(request.to, [4; 20]);
    assert_eq!(request.input, vec![0x43, 0x08, 0xae, 0xc1]);

    let reply = |variant: u8| {
        <(AbiConfig,)>::abi_encode_sequence(&((variant, (1u128, 2u128, 0x0102u128)),))
    };
    match fetcher.fetch(Some(reply(0))) {
        Fetched::Config(bytes) => assert_eq!(bytes, config_bytes(0)),
        _ => panic!("the configuration is valid"),
    }
    assert!(matches!(fetcher.fetch(Some(reply(2))), Fetched::Invalid));
    assert!(matches!(fetcher.fetch(Some(reply(1)[..127].to_vec())), Fetched::Unavailable));
    assert!(matches!(fetcher.fetch(None), Fetched::Unavailable));

    // The leading bytes of a word do not count.
    let mut dirty = reply(1);
    dirty[0] = 0xff;
    dirty[32] = 0xff;
    match fetcher.fetch(Some(dirty)) {
        Fetched::Config(bytes) => assert_eq!(bytes, config_bytes(1)),
        _ => panic!("the configuration is valid"),
    }
}

#[test]
fn dkg_transaction_carries_the_transcript() {
    let transcript = api::DKGTranscript { transcript_bytes: vec![0xde, 0xad] };
    let txn = construct_dkg_transaction(transcript, 4, 5, &addresses()).unwrap();
    let mut input = vec![0x49, 0xa3, 0xcc, 0xbc];
    input.extend(<(sol_data::Bytes,)>::abi_encode_sequence(&(vec![0xde, 0xad],)));
    assert_eq!(input.len(), 4 + 32 + 32 + 32);
    match txn.transaction {
        Transaction::Legacy(tx) => {
            assert!(matches!(tx.to, TxKind::Call(address) if address == [6; 20]));
            assert_eq!(tx.nonce, 4);
            assert_eq!(tx.gas_price, 5);
            assert_eq!(tx.input, input);
        }
        _ => panic!("system transactions are legacy transactions"),
    }
}

#[test]
fn different_states_encode_differently() {
    let off = || Some(ConfigVariant::Off);
    let mut longer = state(off(), None);
    longer.last_completed.transcript.push(0);
    let mut moved = state(off(), None);
    moved.last_completed.metadata.target_validator_set =
        std::mem::take(&mut moved.last_completed.metadata.dealer_validator_set);
    let states = [
        state(None, None),
        state(off(), None),
        state(None, off()),
        state(off(), off()),
        state(Some(ConfigVariant::V2), None),
        longer,
        moved,
    ];
    let encodings: Vec<Vec<u8>> = states.iter().map(convert_dkg_state_to_bcs).collect();
    for i in 0..encodings.len() {
        for j in 0..i {
            assert_ne!(encodings[i], encodings[j]);
        }
    }
}

#[test]
fn encoded_state_reads_back() {
    type Session = (
        (
            u64,
            (u8, (u128, u128), (u128, u128, u128)),
            Vec<([u8; 32], Vec<u8>, u64)>,
            Vec<([u8; 32], Vec<u8>, u64)>,
        ),
        u64,
        Vec<u8>,
    );
    let bytes = convert_dkg_state_to_bcs(&state(None, Some(ConfigVariant::V2)));
    let (last, current): (Option<Session>, Option<Session>) = bcs::from_bytes(&bytes).unwrap();
    assert_eq!(last, None);
    let mut address = [0; 32];
    address[12..].copy_from_slice(&[7; 20]);
    let expected = (
        (9, (1, (0, 0), (1, 2, 0x0102)), vec![(address, vec![1, 2, 3], 2)], vec![]),
        11,
        vec![0xaa, 0xbb],
    );
    assert_eq!(current, Some(expected));
}
