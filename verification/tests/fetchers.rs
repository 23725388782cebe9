use alloy_primitives::keccak256;
use alloy_sol_types::{sol_data, SolType};
use block_pipeline::onchain_config::abi;
use block_pipeline::onchain_config::base::{OnchainConfigFetcher, SystemAddresses};
use block_pipeline::onchain_config::consensus_config::ConsensusConfigFetcher;
use block_pipeline::onchain_config::validator_set::{
    take_validators, ValidatorSetFetcher, ValidatorSetProgress,
};

type AbiValidators = (
    sol_data::Array<(
        sol_data::Address,
        sol_data::Bytes,
        sol_data::Bytes,
        sol_data::Uint<256>,
        sol_data::Uint<64>,
        sol_data::Bytes,
        sol_data::Bytes,
    )>,
);

fn base() -> OnchainConfigFetcher<u8> {
    OnchainConfigFetcher {
        eth_api: 0,
        addresses: SystemAddresses {
            system_caller: [1; 20],
            block: [2; 20],
            consensus_config: [3; 20],
            randomness_config: [4; 20],
            dkg: [5; 20],
            reconfiguration_with_dkg: [6; 20],
            validator_manager: [7; 20],
        },
    }
}

fn reply(indices: &[u64]) -> Option<Vec<u8>> {
    let list: Vec<_> = indices
        .iter()
        .map(|index| {
            (
                alloy_primitives::Address::from([9; 20]),
                alloy_primitives::Bytes::new(),
                alloy_primitives::Bytes::new(),
                alloy_primitives::U256::from(1),
                *index,
                alloy_primitives::Bytes::new(),
                alloy_primitives::Bytes::new(),
            )
        })
        .collect();
    Some(AbiValidators::abi_encode_sequence(&(list,)))
}

#[test]
fn selectors_are_hashes_of_signatures() {
    let selector = |signature: &str| keccak256(signature.as_bytes())[..4].to_vec();
    assert_eq!(abi::GET_CURRENT_CONFIG.to_vec(), selector("getCurrentConfig()"));
    assert_eq!(abi::GET_DKG_STATE.to_vec(), selector("getDKGState()"));
    assert_eq!(abi::FINISH_TRANSITION.to_vec(), selector("finishTransition(bytes)"));
    assert_eq!(abi::GET_ACTIVE_VALIDATORS.to_vec(), selector("getActiveValidators()"));
    assert_eq!(
        abi::GET_PENDING_ACTIVE_VALIDATORS.to_vec(),
        selector("getPendingActiveValidators()")
    );
    assert_eq!(
        abi::GET_PENDING_INACTIVE_VALIDATORS.to_vec(),
        selector("getPendingInactiveValidators()")
    );
    assert_eq!(abi::ON_BLOCK_START.to_vec(), selector("onBlockStart(uint64,uint64[],uint64)"));
}

#[test]
fn consensus_config_is_fetched() {
    let base = base();
    let fetcher = ConsensusConfigFetcher::new(&base);
    assert_eq!(fetcher.contract_address(), [3; 20]);
    assert_eq!(fetcher.caller_address(), [1; 20]);
    let request = fetcher.request();
    assert_eq!(request.from, [1; 20]);
    assert_eq!(request.to, [3; 20]);
    assert_eq!(request.input, vec![0x43, 0x08, 0xae, 0xc1]);

    for config in [vec![], vec![1], vec![2; 32], vec![3; 33], vec![4; 1000]] {
        let data = <(sol_data::Bytes,)>::abi_encode_sequence(&(config.clone(),));
        assert_eq!(fetcher.fetch(Some(data)), Some(config));
    }
    assert_eq!(fetcher.fetch(None), None);
    assert_eq!(fetcher.fetch(Some(vec![])), None);
}

#[test]
fn consensus_config_that_does_not_decode_is_unavailable() {
    let base = base();
    let fetcher = ConsensusConfigFetcher::new(&base);
    let good = <(sol_data::Bytes,)>::abi_encode_sequence(&(vec![5u8; 40],));
    assert_eq!(good.len(), 128);

    // The offset lies outside.
    let mut data = good.clone();
    data[31] = 0xff;
    assert_eq!(fetcher.fetch(Some(data)), None);
    // The offset does not fit into a machine word.
    let mut data = good.clone();
    data[0] = 1;
    assert_eq!(fetcher.fetch(Some(data)), None);
    // The bytes end outside.
    let mut data = good.clone();
    data[63] = 65;
    assert_eq!(fetcher.fetch(Some(data)), None);
    // They may end where the padding ends, and the padding may be missing.
    let mut data = good.clone();
    data[63] = 64;
    assert_eq!(fetcher.fetch(Some(data)).map(|c| c.len()), Some(64));
    assert_eq!(fetcher.fetch(Some(good[..104].to_vec())), Some(vec![5; 40]));
    assert_eq!(fetcher.fetch(Some(good[..103].to_vec())), None);
}

#[test]
fn three_calls_fetch_all_validators() {
    let base = base();
    let fetcher = ValidatorSetFetcher::new(&base);
    assert_eq!(fetcher.contract_address(), [7; 20]);
    assert_eq!(fetcher.caller_address(), [1; 20]);

    let progress = ValidatorSetProgress::Active;
    let request = fetcher.request(&progress).unwrap();
    assert_eq!(request.from, [1; 20]);
    assert_eq!(request.to, [7; 20]);
    assert_eq!(request.input, vec![0x9d, 0xe7, 0x02, 0x58]);
    let progress = fetcher.fetch(progress, reply(&[1, 2]));
    assert_eq!(fetcher.request(&progress).unwrap().input, vec![0x53, 0xdc, 0x6a, 0x5e]);
    let progress = fetcher.fetch(progress, reply(&[3]));
    assert_eq!(fetcher.request(&progress).unwrap().input, vec![0x9f, 0xca, 0xa0, 0x80]);
    let progress = fetcher.fetch(progress, reply(&[]));
    assert!(fetcher.request(&progress).is_none());
    match progress {
        ValidatorSetProgress::Complete { active, pending_active, pending_inactive } => {
            let indices: Vec<u64> = active.iter().map(|v| v.validator_index).collect();
            assert_eq!(indices, vec![1, 2]);
            assert_eq!(pending_active[0].validator_index, 3);
            assert_eq!(pending_inactive.len(), 0);
        }
        _ => panic!("every list arrived"),
    }
}

#[test]
fn failed_call_ends_fetching_validators() {
    let base = base();
    let fetcher = ValidatorSetFetcher::new(&base);
    let first = fetcher.fetch(ValidatorSetProgress::Active, None);
    assert!(matches!(first, ValidatorSetProgress::Unavailable));
    assert!(fetcher.request(&first).is_none());

    let second = fetcher.fetch(ValidatorSetProgress::Active, reply(&[1]));
    let second = fetcher.fetch(second, Some(vec![0; 31]));
    assert!(matches!(second, ValidatorSetProgress::Unavailable));
    assert!(matches!(fetcher.fetch(second, reply(&[1])), ValidatorSetProgress::Unavailable));
}

#[test]
fn complete_list_of_validators_stays() {
    let complete = ValidatorSetProgress::Complete {
        active: vec![],
        pending_active: vec![],
        pending_inactive: vec![],
    };
    assert!(matches!(take_validators(complete, None), ValidatorSetProgress::Complete { .. }));
    assert!(matches!(
        take_validators(ValidatorSetProgress::Active, None),
        ValidatorSetProgress::Unavailable
    ));
}
