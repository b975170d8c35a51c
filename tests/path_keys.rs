use eureka_relay::error::RelayError;
use eureka_relay::hash::{derive_commitment_slot, u64_be_word};
use eureka_relay::height::Height;
use eureka_relay::path::{IbcEurekaPathExt, Path};

fn commitment(port: &str, channel: &str, sequence: u64) -> Path {
    Path::Commitment { port_id: port.to_string(), channel_id: channel.to_string(), sequence }
}

#[test]
fn canonical_strings_of_provable_paths() {
    let p = Path::ClientState { client_id: "07-tendermint-0".to_string() };
    assert_eq!(p.storage_path_string().unwrap(), "clients/07-tendermint-0/clientState");
    assert_eq!(
        commitment("transfer", "channel-0", 1).storage_path_string().unwrap(),
        "commitments/ports/transfer/channels/channel-0/sequences/1"
    );
    let ack = Path::Acknowledgement {
        port_id: "transfer".to_string(),
        channel_id: "channel-7".to_string(),
        sequence: 1234567890,
    };
    assert_eq!(
        ack.storage_path_string().unwrap(),
        "acks/ports/transfer/channels/channel-7/sequences/1234567890"
    );
    let receipt = Path::Receipt {
        port_id: "p".to_string(),
        channel_id: "c".to_string(),
        sequence: u64::MAX,
    };
    assert_eq!(
        receipt.storage_path_string().unwrap(),
        "receipts/ports/p/channels/c/sequences/18446744073709551615"
    );
}

#[test]
fn storage_key_is_digest_of_canonical_string() {
    let p = commitment("transfer", "channel-0", 1);
    let expected = alloy::primitives::keccak256(b"commitments/ports/transfer/channels/channel-0/sequences/1");
    assert_eq!(p.to_storage_key().unwrap(), expected.0);
    let c = Path::ClientState { client_id: "07-tendermint-0".to_string() };
    let expected = alloy::primitives::keccak256(b"clients/07-tendermint-0/clientState");
    assert_eq!(c.to_storage_key().unwrap(), expected.0);
}

#[test]
fn storage_key_is_deterministic_and_distinct_paths_differ() {
    let a = commitment("transfer", "channel-0", 1);
    assert_eq!(a.to_storage_key(), a.clone().to_storage_key());
    let samples = vec![
        commitment("transfer", "channel-0", 1),
        commitment("transfer", "channel-0", 10),
        commitment("transfer", "channel-01", 1),
        commitment("transfe", "rchannel-0", 1),
        Path::Acknowledgement { port_id: "transfer".into(), channel_id: "channel-0".into(), sequence: 1 },
        Path::Receipt { port_id: "transfer".into(), channel_id: "channel-0".into(), sequence: 1 },
        Path::ClientState { client_id: "07-tendermint-0".into() },
        Path::ClientState { client_id: "07-tendermint-1".into() },
    ];
    let keys: Vec<[u8; 32]> = samples.iter().map(|p| p.to_storage_key().unwrap()).collect();
    for i in 0..keys.len() {
        for j in 0..keys.len() {
            if i != j {
                assert_ne!(keys[i], keys[j]);
            }
        }
    }
}

#[test]
fn unimplemented_paths_are_unsupported() {
    let unsupported = vec![
        Path::ClientConsensusState {
            client_id: "07-tendermint-0".into(),
            height: Height { revision_number: 0, revision_height: 5 },
        },
        Path::Connection { connection_id: "connection-0".into() },
        Path::ChannelEnd { port_id: "transfer".into(), channel_id: "channel-0".into() },
        Path::NextSequenceSend { port_id: "transfer".into(), channel_id: "channel-0".into() },
        Path::NextSequenceRecv { port_id: "transfer".into(), channel_id: "channel-0".into() },
        Path::NextSequenceAck { port_id: "transfer".into(), channel_id: "channel-0".into() },
        Path::NextConnectionSequence,
        Path::NextClientSequence,
    ];
    for p in unsupported {
        assert_eq!(p.to_storage_key(), Err(RelayError::UnsupportedPath));
        assert_eq!(p.storage_path_string(), Err(RelayError::UnsupportedPath));
    }
}

#[test]
fn big_endian_word_of_slot() {
    let w = u64_be_word(1);
    assert_eq!(w[31], 1);
    assert!(w[..31].iter().all(|b| *b == 0));
    let w = u64_be_word(0x0102030405060708);
    assert_eq!(&w[24..], &[1, 2, 3, 4, 5, 6, 7, 8]);
    assert!(w[..24].iter().all(|b| *b == 0));
}

#[test]
fn commitment_slot_derivation() {
    let key = [0xabu8; 32];
    let mut preimage = key.to_vec();
    preimage.extend_from_slice(&[0u8; 31]);
    preimage.push(1);
    let expected = alloy::primitives::keccak256(&preimage);
    assert_eq!(derive_commitment_slot(&key, 1), expected.0);
    assert_ne!(derive_commitment_slot(&key, 1), derive_commitment_slot(&key, 2));
}
