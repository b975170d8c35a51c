use eureka_relay::client::{ConsensusState, SupportedZkAlgorithms, TrustThreshold};
use eureka_relay::error::RelayError;
use eureka_relay::height::{ClientHeight, Height};
use eureka_relay::msg::{IbcEurekaVoyagerMessage, UpdateClientMsg};
use eureka_relay::transaction::{validate_gas, Module as Submitter, TxReply, TxRequest, TxState, TxStep};
use eureka_relay::update::{
    parse_verifying_key, FetchSP1Proof, FetchUpdate, Module, ModuleCall, ModuleData, UpdateOutcome,
    UpdateReply, UpdateRequest, UpdateState,
};

fn module() -> Module {
    Module::new(
        "cosmoshub-4".into(),
        "cosmoshub-4",
        "sp1-ics07-update".into(),
        TrustThreshold { numerator: 1, denominator: 3 },
        1_209_600,
        "plonk",
    )
    .unwrap()
}

fn trusted() -> ConsensusState {
    ConsensusState { timestamp: 1_700_000_000, root: [1u8; 32], next_validators_hash: [2u8; 32] }
}

fn height(h: u64) -> Height {
    Height { revision_number: 4, revision_height: h }
}

#[test]
fn fetch_update_waits_for_target_before_proving() {
    let m = module();
    let fetch = FetchUpdate { update_from: height(100), update_to: height(150) };
    assert_eq!(m.light_block_heights(&fetch), Ok((100, 150)));
    let c = m.fetch_update_continuation(&fetch, trusted(), vec![0xaa, 0xbb]);
    assert_eq!(c.wait.chain_id, "cosmoshub-4");
    assert_eq!(c.wait.height, height(150));
    assert_eq!(c.next.plugin, "sp1-ics07-update/cosmoshub-4");
    match c.next.message {
        ModuleCall::FetchSP1Proof(FetchSP1Proof { trusted_consensus_state, proposed_header }) => {
            assert_eq!(trusted_consensus_state.timestamp, 1_700_000_000);
            assert_eq!(trusted_consensus_state.root, [1u8; 32]);
            assert_eq!(proposed_header, vec![0xaa, 0xbb]);
        }
        ModuleCall::FetchUpdate(_) => panic!("the second stage must be the proof"),
    }
}

#[test]
fn light_block_heights_out_of_range() {
    let m = module();
    let fetch = FetchUpdate { update_from: height(1), update_to: height(u64::MAX) };
    assert_eq!(m.light_block_heights(&fetch), Err(RelayError::OutOfRange));
    let fetch = FetchUpdate { update_from: height(i64::MAX as u64), update_to: height(i64::MAX as u64) };
    assert!(m.light_block_heights(&fetch).is_ok());
}

#[test]
fn synthetic_client_state_from_configuration() {
    let cs = module().to_client_state();
    assert_eq!(cs.chain_id, "cosmoshub-4");
    assert_eq!(cs.trust_level, TrustThreshold { numerator: 1, denominator: 3 });
    assert_eq!(cs.trusting_period, 1_209_600);
    assert_eq!(cs.unbonding_period, 1_209_600);
    assert_eq!(cs.zk_algorithm, SupportedZkAlgorithms::Plonk);
    assert_eq!(cs.latest_height, ClientHeight { revision_number: 0, revision_height: 0 });
    assert!(!cs.is_frozen);
}

#[test]
fn module_setup() {
    let groth = Module::new("c".into(), "c", "p".into(), TrustThreshold { numerator: 1, denominator: 3 }, 1, "groth16").unwrap();
    assert_eq!(groth.proof_type, SupportedZkAlgorithms::Groth16);
    assert!(matches!(
        Module::new("c".into(), "d", "p".into(), TrustThreshold { numerator: 1, denominator: 3 }, 1, "plonk"),
        Err(RelayError::ChainIdMismatch)
    ));
    assert!(matches!(
        Module::new("c".into(), "c", "p".into(), TrustThreshold { numerator: 1, denominator: 3 }, 1, "stark"),
        Err(RelayError::UnsupportedProofType)
    ));
}

#[test]
fn verifying_key_hex() {
    let hex = format!("0x{}", "0f".repeat(31) + "A1");
    let key = parse_verifying_key(&hex).unwrap();
    assert_eq!(key[0], 0x0f);
    assert_eq!(key[31], 0xa1);
    assert_eq!(parse_verifying_key(&"0f".repeat(33)), Err(RelayError::MalformedVerifyingKey));
    assert_eq!(parse_verifying_key(&format!("0x{}", "0g".repeat(32))), Err(RelayError::MalformedVerifyingKey));
    assert_eq!(parse_verifying_key("0x00"), Err(RelayError::MalformedVerifyingKey));
}

fn word(n: u64) -> Vec<u8> {
    let mut w = vec![0u8; 24];
    w.extend_from_slice(&n.to_be_bytes());
    w
}

#[test]
fn prove_response_packages_the_proof() {
    let m = module();
    let call = FetchSP1Proof { trusted_consensus_state: trusted(), proposed_header: vec![7, 7] };
    let vkey = format!("0x{}", "ab".repeat(32));
    let r = m.prove_response(call.clone(), &vkey, vec![0xcc; 3], vec![0xdd; 2]).unwrap();
    assert_eq!(r.proposed_header, vec![7, 7]);
    assert_eq!(r.trusted_consensus_state.timestamp, 1_700_000_000);
    let mut expected = word(0x20);
    expected.extend([0xabu8; 32]);
    expected.extend(word(0x60));
    expected.extend(word(0xa0));
    expected.extend(word(2));
    let mut pv = vec![0xdd; 2];
    pv.resize(32, 0);
    expected.extend(pv);
    expected.extend(word(3));
    let mut pf = vec![0xcc; 3];
    pf.resize(32, 0);
    expected.extend(pf);
    assert_eq!(r.sp1_proof, expected);
    assert!(matches!(m.prove_response(call, "0x12", vec![], vec![]), Err(RelayError::MalformedVerifyingKey)));
    let data = ModuleData::from(r);
    assert!(matches!(data, ModuleData::ProveResponse(_)));
}

#[test]
fn module_call_conversions() {
    let f = FetchUpdate { update_from: height(1), update_to: height(2) };
    assert!(matches!(ModuleCall::from(f), ModuleCall::FetchUpdate(x) if x == f));
    let p = FetchSP1Proof { trusted_consensus_state: trusted(), proposed_header: vec![] };
    assert!(matches!(ModuleCall::from(p), ModuleCall::FetchSP1Proof(_)));
}

fn update_msg() -> UpdateClientMsg {
    UpdateClientMsg { client_id: "07-tendermint-0".into(), msg: vec![1, 2, 3] }
}

#[test]
fn update_client_message_conversion() {
    match IbcEurekaVoyagerMessage::from(update_msg()) {
        IbcEurekaVoyagerMessage::UpdateClient(m) => {
            assert_eq!(m.client_id, "07-tendermint-0");
            assert_eq!(m.msg, vec![1, 2, 3]);
        }
    }
}

#[test]
fn gas_price_limits() {
    assert_eq!(validate_gas(None, u128::MAX), Ok(()));
    assert_eq!(validate_gas(Some(100), 100), Ok(()));
    assert_eq!(validate_gas(Some(100), 101), Err(RelayError::GasPriceTooHigh { max: 100, price: 101 }));
}

const REGISTRY: eureka_relay::chain::Address = eureka_relay::chain::Address { bytes: [9u8; 20] };

#[test]
fn submission_checks_gas_before_sending() {
    let s = Submitter { chain_id: "1".into(), max_gas_price: Some(50) };
    let (st, r) = s.submit_tx(IbcEurekaVoyagerMessage::UpdateClient(update_msg()));
    assert!(matches!(r, TxRequest::ClientRegistry));
    let (st, r) = match s.submit_tx_step(st, TxReply::Address(REGISTRY)).unwrap() {
        TxStep::Ask(st, r) => (st, r),
        TxStep::Done => panic!("sent too early"),
    };
    assert!(matches!(r, TxRequest::GasPrice));
    assert!(matches!(
        s.submit_tx_step(st.clone(), TxReply::GasPrice(51)),
        Err(RelayError::GasPriceTooHigh { max: 50, price: 51 })
    ));
    let (st, r) = match s.submit_tx_step(st, TxReply::GasPrice(50)).unwrap() {
        TxStep::Ask(st, r) => (st, r),
        TxStep::Done => panic!("sent without confirmation"),
    };
    match r {
        TxRequest::UpdateClient { registry, client_id, msg } => {
            assert_eq!(registry.bytes, [9u8; 20]);
            assert_eq!(client_id, "07-tendermint-0");
            assert_eq!(msg, vec![1, 2, 3]);
        }
        other => panic!("unexpected request {:?}", other),
    }
    assert!(matches!(st, TxState::AwaitConfirmation));
    assert!(matches!(s.submit_tx_step(st, TxReply::Confirmed), Ok(TxStep::Done)));
}

#[test]
fn submission_without_limit_sends_at_once() {
    let s = Submitter { chain_id: "1".into(), max_gas_price: None };
    let (st, _) = s.submit_tx(IbcEurekaVoyagerMessage::UpdateClient(update_msg()));
    match s.submit_tx_step(st, TxReply::Address(REGISTRY)).unwrap() {
        TxStep::Ask(TxState::AwaitConfirmation, TxRequest::UpdateClient { .. }) => {}
        other => panic!("unexpected step {:?}", other),
    }
}

#[test]
fn submitter_chain_id_must_match() {
    let s = Submitter::new("17000", 17000, Some(7)).unwrap();
    assert_eq!(s.chain_id, "17000");
    assert_eq!(s.max_gas_price, Some(7));
    assert!(matches!(Submitter::new("1", 17000, None), Err(RelayError::ChainIdMismatch)));
}

#[test]
fn call_runs_both_stages() {
    let m = module();
    let call = ModuleCall::FetchUpdate(FetchUpdate { update_from: height(100), update_to: height(150) });
    let (state, request) = m.call(call, None).unwrap();
    assert!(matches!(request, UpdateRequest::LightBlocks { trusted: 100, target: 150 }));
    let reply = UpdateReply::LightBlocks { trusted_consensus_state: trusted(), proposed_header: vec![5] };
    let c = match m.call_step(state, reply).unwrap() {
        UpdateOutcome::Continue(c) => c,
        UpdateOutcome::Data(_) => panic!("no proof may be made before the wait"),
    };
    assert_eq!(c.wait.height, height(150));
    let (state, request) = m.call(c.next.message, None).unwrap();
    match request {
        UpdateRequest::Prove { client_state, trusted_consensus_state, proposed_header } => {
            assert_eq!(client_state.chain_id, "cosmoshub-4");
            assert_eq!(client_state.unbonding_period, 1_209_600);
            assert_eq!(trusted_consensus_state.timestamp, 1_700_000_000);
            assert_eq!(proposed_header, vec![5]);
        }
        UpdateRequest::LightBlocks { .. } => panic!("the second stage proves"),
    }
    assert!(matches!(state, UpdateState::AwaitProof { .. }));
    let reply = UpdateReply::Proof { verifying_key: format!("0x{}", "00".repeat(32)), proof: vec![1], public_values: vec![2] };
    match m.call_step(state, reply).unwrap() {
        UpdateOutcome::Data(ModuleData::ProveResponse(r)) => {
            assert_eq!(r.proposed_header, vec![5]);
            assert_eq!(r.sp1_proof.len(), 32 * 8);
        }
        UpdateOutcome::Continue(_) => panic!("the second stage ends the call"),
    }
}

#[test]
fn call_refuses_mismatched_replies_and_heights() {
    let m = module();
    let (state, _) = m.call(ModuleCall::FetchUpdate(FetchUpdate { update_from: height(1), update_to: height(2) }), None).unwrap();
    let reply = UpdateReply::Proof { verifying_key: String::new(), proof: vec![], public_values: vec![] };
    assert!(matches!(m.call_step(state, reply), Err(RelayError::UnexpectedReply)));
    let far = ModuleCall::FetchUpdate(FetchUpdate { update_from: height(1), update_to: height(u64::MAX) });
    assert!(matches!(m.call(far, None), Err(RelayError::OutOfRange)));
}

#[test]
fn proof_uses_chain_client_state_when_given() {
    let m = module();
    let mut onchain = m.to_client_state();
    onchain.chain_id = "cosmoshub-4".into();
    onchain.unbonding_period = 1_814_400;
    onchain.latest_height = ClientHeight { revision_number: 4, revision_height: 99 };
    let chosen = m.proving_client_state(Some(onchain.clone()));
    assert_eq!(chosen.unbonding_period, 1_814_400);
    assert_eq!(chosen.latest_height, ClientHeight { revision_number: 4, revision_height: 99 });
    assert_eq!(m.proving_client_state(None).unbonding_period, 1_209_600);
    let call = ModuleCall::FetchSP1Proof(FetchSP1Proof { trusted_consensus_state: trusted(), proposed_header: vec![] });
    match m.call(call, Some(onchain)).unwrap().1 {
        UpdateRequest::Prove { client_state, .. } => assert_eq!(client_state.unbonding_period, 1_814_400),
        UpdateRequest::LightBlocks { .. } => panic!("the second stage proves"),
    }
}

#[test]
fn failed_collaborators_are_reported_as_such() {
    let m = module();
    let (state, _) = m.call(ModuleCall::FetchUpdate(FetchUpdate { update_from: height(1), update_to: height(2) }), None).unwrap();
    assert!(matches!(m.call_step(state, UpdateReply::Failed), Err(RelayError::CollaboratorFailure)));
    let s = Submitter { chain_id: "1".into(), max_gas_price: None };
    let (st, _) = s.submit_tx(IbcEurekaVoyagerMessage::UpdateClient(update_msg()));
    assert!(matches!(s.submit_tx_step(st, TxReply::Failed), Err(RelayError::CollaboratorFailure)));
}
