use eureka_relay::client::{
    decode_client_state_bytes, encode_client_state_bytes, ClientState, ConsensusState,
    MembershipProof, MembershipProofType, Module, SupportedIbcInterfaces, SupportedZkAlgorithms,
    TrustThreshold,
};
use eureka_relay::error::RelayError;
use eureka_relay::height::{ClientHeight, Height};

fn word(n: u64) -> Vec<u8> {
    let mut w = vec![0u8; 24];
    w.extend_from_slice(&n.to_be_bytes());
    w
}

fn sample_client_state() -> ClientState {
    ClientState {
        chain_id: "cosmoshub-4".to_string(),
        trust_level: TrustThreshold { numerator: 1, denominator: 3 },
        latest_height: ClientHeight { revision_number: 4, revision_height: 123456 },
        trusting_period: 1_209_600,
        unbonding_period: 1_814_400,
        is_frozen: false,
        zk_algorithm: SupportedZkAlgorithms::Plonk,
    }
}

fn module() -> Module {
    Module::new("sp1-ics07-tendermint", "tendermint", "solidity-ibc-eureka").unwrap()
}

#[test]
fn client_state_encoding_layout() {
    let bytes = encode_client_state_bytes(&sample_client_state());
    let mut expected = Vec::new();
    expected.extend(word(0x20));
    expected.extend(word(9 * 32));
    expected.extend(word(1));
    expected.extend(word(3));
    expected.extend(word(4));
    expected.extend(word(123456));
    expected.extend(word(1_209_600));
    expected.extend(word(1_814_400));
    expected.extend(word(0));
    expected.extend(word(1));
    expected.extend(word(11));
    let mut text = b"cosmoshub-4".to_vec();
    text.resize(32, 0);
    expected.extend(text);
    assert_eq!(bytes, expected);
}

#[test]
fn client_state_round_trip() {
    let cs = sample_client_state();
    let m = module();
    let bytes = m.encode_client_state(&cs, true).unwrap();
    let back = m.decode_client_state(&bytes).unwrap();
    assert_eq!(back.chain_id, cs.chain_id);
    assert_eq!(back.trust_level, cs.trust_level);
    assert_eq!(back.latest_height, cs.latest_height);
    assert_eq!(back.trusting_period, cs.trusting_period);
    assert_eq!(back.unbonding_period, cs.unbonding_period);
    assert_eq!(back.is_frozen, cs.is_frozen);
    assert_eq!(back.zk_algorithm, cs.zk_algorithm);
    let frozen = ClientState { is_frozen: true, zk_algorithm: SupportedZkAlgorithms::Groth16, chain_id: String::new(), ..cs };
    let back = decode_client_state_bytes(&encode_client_state_bytes(&frozen)).unwrap();
    assert!(back.is_frozen);
    assert_eq!(back.zk_algorithm, SupportedZkAlgorithms::Groth16);
    assert_eq!(back.chain_id, "");
}

#[test]
fn consensus_state_round_trip_and_layout() {
    let cs = ConsensusState { timestamp: 1_700_000_000, root: [7u8; 32], next_validators_hash: [9u8; 32] };
    let m = module();
    let bytes = m.encode_consensus_state(&cs);
    let mut expected = word(1_700_000_000);
    expected.extend([7u8; 32]);
    expected.extend([9u8; 32]);
    assert_eq!(bytes, expected);
    let back = m.decode_consensus_state(&bytes).unwrap();
    assert_eq!(back.timestamp, cs.timestamp);
    assert_eq!(back.root, cs.root);
    assert_eq!(back.next_validators_hash, cs.next_validators_hash);
}

#[test]
fn malformed_client_states_are_reported() {
    let m = module();
    let valid = encode_client_state_bytes(&sample_client_state());
    let mut bad_offset = valid.clone();
    bad_offset[31] = 0xff;
    let mut bad_string_offset = valid.clone();
    bad_string_offset[63] = 0xf0;
    let mut bad_length = valid.clone();
    bad_length[11 * 32 - 1] = 200;
    let mut bad_algorithm = valid.clone();
    bad_algorithm[10 * 32 - 1] = 7;
    let inputs: Vec<Vec<u8>> = vec![
        vec![],
        vec![0u8; 5],
        vec![0xffu8; 31],
        vec![0xffu8; 64],
        valid[..valid.len() - 1].to_vec(),
        valid[..64].to_vec(),
        bad_offset,
        bad_string_offset,
        bad_length,
        bad_algorithm,
    ];
    assert_eq!(inputs.len(), 10);
    for input in inputs {
        assert!(matches!(m.decode_client_state(&input), Err(RelayError::MalformedState)));
        assert!(matches!(m.decode_client_state_meta(&input), Err(RelayError::MalformedState)));
    }
}

#[test]
fn malformed_consensus_state_is_reported() {
    let m = module();
    assert!(matches!(m.decode_consensus_state(&[1, 2, 3]), Err(RelayError::MalformedState)));
    assert_eq!(m.decode_consensus_state_meta(&[0u8; 10]), Err(RelayError::MalformedState));
}

#[test]
fn client_state_meta() {
    let m = module();
    let meta = m.decode_client_state_meta(&encode_client_state_bytes(&sample_client_state())).unwrap();
    assert_eq!(meta.chain_id, "cosmoshub-4");
    assert_eq!(meta.height, Height { revision_number: 4, revision_height: 123456 });
}

#[test]
fn consensus_state_meta_in_nanoseconds() {
    let m = module();
    let cs = ConsensusState { timestamp: 1_700_000_000, root: [0u8; 32], next_validators_hash: [0u8; 32] };
    assert_eq!(m.decode_consensus_state_meta(&m.encode_consensus_state(&cs)), Ok(1_700_000_000_000_000_000));
    let late = ConsensusState { timestamp: u64::MAX / 1_000_000_000 + 1, ..cs };
    assert_eq!(m.decode_consensus_state_meta(&m.encode_consensus_state(&late)), Err(RelayError::OutOfRange));
    let edge = ConsensusState { timestamp: u64::MAX / 1_000_000_000, ..cs };
    assert_eq!(
        m.decode_consensus_state_meta(&m.encode_consensus_state(&edge)),
        Ok((u64::MAX / 1_000_000_000) * 1_000_000_000)
    );
}

#[test]
fn metadata_is_refused_for_client_state_encoding() {
    let m = module();
    assert_eq!(m.encode_client_state(&sample_client_state(), false), Err(RelayError::UnexpectedMetadata));
}

#[test]
fn module_setup_checks_names() {
    assert!(Module::new("sp1-ics07-tendermint", "tendermint", "solidity-ibc-eureka").is_ok());
    assert!(matches!(Module::new("07-tendermint", "tendermint", "solidity-ibc-eureka"), Err(RelayError::UnsupportedClientType)));
    assert!(matches!(Module::new("sp1-ics07-tendermint", "ethereum", "solidity-ibc-eureka"), Err(RelayError::UnsupportedConsensusType)));
    assert!(matches!(Module::new("sp1-ics07-tendermint", "tendermint", "ibc-solidity"), Err(RelayError::UnsupportedInterface)));
    let m = module();
    assert_eq!(m.ibc_interface, SupportedIbcInterfaces::SolidityIbcEureka);
    assert_eq!(m.zk_algorithm, SupportedZkAlgorithms::Plonk);
}

#[test]
fn interface_names() {
    assert_eq!(SupportedIbcInterfaces::try_from_name("solidity-ibc-eureka"), Ok(SupportedIbcInterfaces::SolidityIbcEureka));
    assert_eq!(SupportedIbcInterfaces::try_from_name("solidity"), Err(RelayError::UnsupportedInterface));
    assert_eq!(SupportedIbcInterfaces::SolidityIbcEureka.name(), "solidity-ibc-eureka");
}

#[test]
fn zk_algorithm_codes() {
    assert_eq!(SupportedZkAlgorithms::Groth16.code(), 0);
    assert_eq!(SupportedZkAlgorithms::Plonk.code(), 1);
    assert_eq!(SupportedZkAlgorithms::from_code(0), Some(SupportedZkAlgorithms::Groth16));
    assert_eq!(SupportedZkAlgorithms::from_code(1), Some(SupportedZkAlgorithms::Plonk));
    assert_eq!(SupportedZkAlgorithms::from_code(2), None);
}

#[test]
fn membership_proof_encoding() {
    let m = module();
    let proof = MembershipProof { proof_type: MembershipProofType::SP1MembershipAndUpdateClientProof, proof: vec![0xde, 0xad] };
    let mut expected = word(0x20);
    expected.extend(word(1));
    expected.extend(word(0x40));
    expected.extend(word(2));
    let mut data = vec![0xde, 0xad];
    data.resize(32, 0);
    expected.extend(data);
    assert_eq!(m.encode_proof(&proof), expected);
}

#[test]
fn oversized_string_length_is_malformed_not_a_panic() {
    let m = module();
    let mut input = Vec::new();
    input.extend(word(0x20));
    input.extend(word(0x120));
    for _ in 2..10 {
        input.extend(word(0));
    }
    let mut len_word = vec![0u8; 24];
    len_word.extend([0xffu8; 8]);
    input.extend(len_word);
    assert_eq!(input.len(), 352);
    assert!(matches!(m.decode_client_state(&input), Err(RelayError::MalformedState)));
    assert!(matches!(m.decode_client_state_meta(&input), Err(RelayError::MalformedState)));
}

#[test]
fn short_inputs_are_malformed() {
    let m = module();
    for input in [vec![], vec![0xffu8; 5], vec![0x00u8; 31], vec![0x01u8; 3]] {
        assert!(matches!(m.decode_client_state(&input), Err(RelayError::MalformedState)));
        assert!(matches!(m.decode_consensus_state(&input), Err(RelayError::MalformedState)));
    }
    assert!(matches!(m.decode_consensus_state(&[0u8; 95]), Err(RelayError::MalformedState)));
    assert!(matches!(m.decode_consensus_state(&[0u8; 97]), Err(RelayError::MalformedState)));
    assert!(m.decode_consensus_state(&[0u8; 96]).is_ok());
}

#[test]
fn non_canonical_encodings_are_malformed() {
    let m = module();
    let valid = encode_client_state_bytes(&sample_client_state());
    let mut frozen_two = valid.clone();
    frozen_two[9 * 32 - 1] = 2;
    assert!(matches!(m.decode_client_state(&frozen_two), Err(RelayError::MalformedState)));
    let mut dirty_padding = valid.clone();
    let last = dirty_padding.len() - 1;
    dirty_padding[last] = 1;
    assert!(matches!(m.decode_client_state(&dirty_padding), Err(RelayError::MalformedState)));
    let mut longer = valid.clone();
    longer.extend(word(0));
    assert!(matches!(m.decode_client_state(&longer), Err(RelayError::MalformedState)));
    let mut high_timestamp = m.encode_consensus_state(&ConsensusState { timestamp: 1, root: [0u8; 32], next_validators_hash: [0u8; 32] });
    high_timestamp[0] = 1;
    assert!(matches!(m.decode_consensus_state(&high_timestamp), Err(RelayError::MalformedState)));
}

#[test]
fn empty_chain_id_layout() {
    let cs = ClientState { chain_id: String::new(), ..sample_client_state() };
    let bytes = encode_client_state_bytes(&cs);
    assert_eq!(bytes.len(), 352);
    assert_eq!(&bytes[320..], &word(0)[..]);
}
