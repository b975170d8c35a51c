//! The light client's client and consensus states and their binary encodings.
use vstd::prelude::*;

use crate::abi::{
    abi_client_state, abi_consensus_state, abi_membership_proof, decode_client_state_words,
    decode_consensus_state_words, encode_client_state_words, encode_consensus_state_words,
    encode_membership_proof_words, lemma_client_state_encoding_len,
    lemma_client_state_length_in_bounds, string_length_within,
    ClientStateWords, ClientStateWordsView,
};
use crate::hash::bytes_equal;
use crate::error::RelayError;
use crate::height::{ClientHeight, Height, IntoUnionHeight};
use crate::text::str_eq;

verus! {

/// The client type of the zero-knowledge Tendermint light client.
pub const SP1_ICS07_CLIENT_TYPE: &'static str = "sp1-ics07-tendermint";

/// The name of the Solidity IBC Eureka interface.
pub const IBC_EUREKA_INTERFACE: &'static str = "solidity-ibc-eureka";

/// The consensus type that the light client tracks.
pub const TENDERMINT_CONSENSUS_TYPE: &'static str = "tendermint";

/// The IBC interfaces through which the light client can be reached.
#[derive(Debug, Clone, Copy, PartialEq, Eq, Structural)]
pub enum SupportedIbcInterfaces {
    /// The Solidity IBC Eureka interface.
    SolidityIbcEureka,
}

/// The zero-knowledge proof systems of the proving backend.
#[derive(Debug, Clone, Copy, PartialEq, Eq, Structural)]
pub enum SupportedZkAlgorithms {
    Groth16,
    Plonk,
}

/// The number under which the light client contract stores a proof system.
pub open spec fn zk_algorithm_code(z: SupportedZkAlgorithms) -> u8 {
    match z {
        SupportedZkAlgorithms::Groth16 => 0,
        SupportedZkAlgorithms::Plonk => 1,
    }
}

impl SupportedZkAlgorithms {
    /// The number under which the light client contract stores the proof system.
    pub fn code(&self) -> (r: u8)
        ensures
            r == zk_algorithm_code(*self),
    {
        match self {
            SupportedZkAlgorithms::Groth16 => 0,
            SupportedZkAlgorithms::Plonk => 1,
        }
    }

    /// The proof system stored under `code`, if any.
    pub fn from_code(code: u8) -> (r: Option<SupportedZkAlgorithms>)
        ensures
            r is Some <==> code < 2,
            r is Some ==> zk_algorithm_code(r->Some_0) == code,
    {
        if code == 0 {
            Some(SupportedZkAlgorithms::Groth16)
        } else if code == 1 {
            Some(SupportedZkAlgorithms::Plonk)
        } else {
            None
        }
    }
}

impl SupportedIbcInterfaces {
    /// The interface of the given name; other names are refused.
    pub fn try_from_name(value: &str) -> (r: Result<SupportedIbcInterfaces, RelayError>)
        ensures
            r is Ok <==> value@ == IBC_EUREKA_INTERFACE@,
            r is Ok ==> r->Ok_0 == SupportedIbcInterfaces::SolidityIbcEureka,
            r is Err ==> r->Err_0 == RelayError::UnsupportedInterface,
    {
        if str_eq(value, IBC_EUREKA_INTERFACE) {
            Ok(SupportedIbcInterfaces::SolidityIbcEureka)
        } else {
            Err(RelayError::UnsupportedInterface)
        }
    }

    /// The name of the interface.
    pub fn name(&self) -> (r: &'static str)
        ensures
            r@ == IBC_EUREKA_INTERFACE@,
    {
        match self {
            SupportedIbcInterfaces::SolidityIbcEureka => IBC_EUREKA_INTERFACE,
        }
    }
}

/// The fraction of voting power that must sign a header for the light client to trust it.
#[derive(Debug, Clone, Copy, PartialEq, Eq, Structural)]
pub struct TrustThreshold {
    pub numerator: u8,
    pub denominator: u8,
}

/// The light client's trust parameters for a counterparty chain.
#[derive(Debug, Clone)]
pub struct ClientState {
    pub chain_id: String,
    pub trust_level: TrustThreshold,
    pub latest_height: ClientHeight,
    pub trusting_period: u32,
    pub unbonding_period: u32,
    pub is_frozen: bool,
    pub zk_algorithm: SupportedZkAlgorithms,
}

/// The value of a [`ClientState`].
pub struct ClientStateView {
    pub chain_id: Seq<char>,
    pub trust_level: TrustThreshold,
    pub latest_height: ClientHeight,
    pub trusting_period: u32,
    pub unbonding_period: u32,
    pub is_frozen: bool,
    pub zk_algorithm: SupportedZkAlgorithms,
}

impl View for ClientState {
    type V = ClientStateView;

    open spec fn view(&self) -> ClientStateView {
        ClientStateView {
            chain_id: self.chain_id@,
            trust_level: self.trust_level,
            latest_height: self.latest_height,
            trusting_period: self.trusting_period,
            unbonding_period: self.unbonding_period,
            is_frozen: self.is_frozen,
            zk_algorithm: self.zk_algorithm,
        }
    }
}

/// One trusted checkpoint of the counterparty chain.
#[derive(Debug, Clone, Copy)]
pub struct ConsensusState {
    /// Seconds since the Unix epoch.
    pub timestamp: u64,
    pub root: [u8; 32],
    pub next_validators_hash: [u8; 32],
}

/// The value of a [`ConsensusState`].
pub struct ConsensusStateView {
    pub timestamp: u64,
    pub root: Seq<u8>,
    pub next_validators_hash: Seq<u8>,
}

impl View for ConsensusState {
    type V = ConsensusStateView;

    open spec fn view(&self) -> ConsensusStateView {
        ConsensusStateView {
            timestamp: self.timestamp,
            root: self.root@,
            next_validators_hash: self.next_validators_hash@,
        }
    }
}

/// The kinds of membership proof that the light client verifies.
#[derive(Debug, Clone, Copy, PartialEq, Eq, Structural)]
pub enum MembershipProofType {
    SP1MembershipProof,
    SP1MembershipAndUpdateClientProof,
}

/// The number under which the light client contract reads a membership proof kind.
pub open spec fn membership_proof_type_code(t: MembershipProofType) -> u8 {
    match t {
        MembershipProofType::SP1MembershipProof => 0,
        MembershipProofType::SP1MembershipAndUpdateClientProof => 1,
    }
}

/// A membership proof for the light client.
#[derive(Debug, Clone)]
pub struct MembershipProof {
    pub proof_type: MembershipProofType,
    pub proof: Vec<u8>,
}

/// What the host engine is told of a client state.
#[derive(Debug, Clone)]
pub struct ClientStateMeta {
    pub chain_id: String,
    pub height: Height,
}

/// The ABI tuple of a client state.
pub open spec fn client_state_words(v: ClientStateView) -> ClientStateWordsView {
    (
        v.chain_id,
        (v.trust_level.numerator, v.trust_level.denominator),
        (v.latest_height.revision_number, v.latest_height.revision_height),
        v.trusting_period,
        v.unbonding_period,
        v.is_frozen,
        zk_algorithm_code(v.zk_algorithm),
    )
}

/// The binary (ABI) encoding of a client state.
pub open spec fn client_state_bytes(v: ClientStateView) -> Seq<u8> {
    abi_client_state(client_state_words(v))
}

/// The binary (ABI) encoding of a consensus state.
pub open spec fn consensus_state_bytes(v: ConsensusStateView) -> Seq<u8> {
    abi_consensus_state((v.timestamp, v.root, v.next_validators_hash))
}

/// The binary (ABI) encoding of a membership proof.
pub open spec fn membership_proof_bytes(p: MembershipProofType, proof: Seq<u8>) -> Seq<u8> {
    abi_membership_proof((membership_proof_type_code(p), proof))
}

/// The number of nanoseconds in a second.
pub const NANOS_PER_SECOND: u64 = 1_000_000_000;

/// Encodes a client state in its binary form.
pub fn encode_client_state_bytes(cs: &ClientState) -> (r: Vec<u8>)
    ensures
        r@ == client_state_bytes(cs@),
{
    let words: ClientStateWords = (
        cs.chain_id.clone(),
        (cs.trust_level.numerator, cs.trust_level.denominator),
        (cs.latest_height.revision_number, cs.latest_height.revision_height),
        cs.trusting_period,
        cs.unbonding_period,
        cs.is_frozen,
        cs.zk_algorithm.code(),
    );
    encode_client_state_words(&words)
}

/// Whether `d` is the binary encoding of some client state.
pub open spec fn is_client_state_encoding(d: Seq<u8>) -> bool {
    exists|m: ClientStateView| #[trigger] client_state_bytes(m) == d
}

/// Whether `d` is the binary encoding of some consensus state.
pub open spec fn is_consensus_state_encoding(d: Seq<u8>) -> bool {
    exists|m: ConsensusStateView|
        #[trigger] consensus_state_bytes(m) == d && m.root.len() == 32 && m.next_validators_hash.len()
            == 32
}

/// Bytes shorter than eleven words, or not a whole number of words, encode no client
/// state.
pub proof fn lemma_not_client_state_encoding(d: Seq<u8>)
    requires
        d.len() < 352 || d.len() % 32 != 0,
    ensures
        !is_client_state_encoding(d),
{
    assert forall|m: ClientStateView| #[trigger] client_state_bytes(m) != d by {
        lemma_client_state_encoding_len(client_state_words(m));
    }
}

/// Bytes of any length but three words encode no consensus state.
pub proof fn lemma_not_consensus_state_encoding(d: Seq<u8>)
    requires
        d.len() != 96,
    ensures
        !is_consensus_state_encoding(d),
{
}

/// Decodes a client state from its binary form. Exactly the encodings of client states
/// decode, each to the client state it encodes; all other bytes are refused as
/// malformed.
pub fn decode_client_state_bytes(data: &[u8]) -> (r: Result<ClientState, RelayError>)
    ensures
        r is Ok <==> is_client_state_encoding(data@),
        r is Ok ==> client_state_bytes(r->Ok_0@) == data@,
        forall|m: ClientStateView| #[trigger] client_state_bytes(m) == data@ ==> r is Ok && r->Ok_0@ == m,
        r is Err ==> r->Err_0 == RelayError::MalformedState,
{
    if !string_length_within(data) {
        assert forall|m: ClientStateView| #[trigger] client_state_bytes(m) != data@ by {
            lemma_client_state_length_in_bounds(client_state_words(m));
        }
        return Err(RelayError::MalformedState);
    }
    match decode_client_state_words(data) {
        None => {
            assert forall|m: ClientStateView| #[trigger] client_state_bytes(m) != data@ by {
                if client_state_bytes(m) == data@ {
                    assert(abi_client_state(client_state_words(m)) == data@);
                }
            }
            Err(RelayError::MalformedState)
        },
        Some(w) => {
            let (chain_id, (numerator, denominator), (revision_number, revision_height), trusting_period, unbonding_period, is_frozen, code) = w;
            match SupportedZkAlgorithms::from_code(code) {
                None => {
                    assert forall|m: ClientStateView| #[trigger] client_state_bytes(m) != data@ by {
                        if client_state_bytes(m) == data@ {
                            assert(abi_client_state(client_state_words(m)) == data@);
                        }
                    }
                    Err(RelayError::MalformedState)
                },
                Some(zk_algorithm) => {
                    let cs = ClientState {
                        chain_id,
                        trust_level: TrustThreshold { numerator, denominator },
                        latest_height: ClientHeight { revision_number, revision_height },
                        trusting_period,
                        unbonding_period,
                        is_frozen,
                        zk_algorithm,
                    };
                    assert forall|m: ClientStateView| #[trigger] client_state_bytes(m) == data@ implies cs@ == m by {
                        assert(abi_client_state(client_state_words(m)) == data@);
                        assert(zk_algorithm_code(m.zk_algorithm) == code);
                    }
                    let encoded = encode_client_state_bytes(&cs);
                    if bytes_equal(encoded.as_slice(), data) {
                        assert(client_state_bytes(cs@) == data@);
                        Ok(cs)
                    } else {
                        Err(RelayError::MalformedState)
                    }
                },
            }
        },
    }
}

/// Encodes a consensus state in its binary form.
pub fn encode_consensus_state_bytes(cs: &ConsensusState) -> (r: Vec<u8>)
    ensures
        r@ == consensus_state_bytes(cs@),
{
    encode_consensus_state_words(&(cs.timestamp, cs.root, cs.next_validators_hash))
}

/// Decodes a consensus state from its binary form. Exactly the encodings of consensus
/// states decode, each to the consensus state it encodes; all other bytes are refused
/// as malformed.
pub fn decode_consensus_state_bytes(data: &[u8]) -> (r: Result<ConsensusState, RelayError>)
    ensures
        r is Ok <==> is_consensus_state_encoding(data@),
        r is Ok ==> consensus_state_bytes(r->Ok_0@) == data@,
        forall|m: ConsensusStateView|
            #[trigger] consensus_state_bytes(m) == data@ && m.root.len() == 32
                && m.next_validators_hash.len() == 32 ==> r is Ok && r->Ok_0@ == m,
        r is Err ==> r->Err_0 == RelayError::MalformedState,
{
    match decode_consensus_state_words(data) {
        None => {
            assert forall|m: ConsensusStateView|
                #[trigger] consensus_state_bytes(m) == data@ && m.root.len() == 32
                    implies m.next_validators_hash.len() != 32 by {
                assert(abi_consensus_state((m.timestamp, m.root, m.next_validators_hash)) == data@);
            }
            Err(RelayError::MalformedState)
        },
        Some(w) => {
            let cs = ConsensusState { timestamp: w.0, root: w.1, next_validators_hash: w.2 };
            assert forall|m: ConsensusStateView|
                #[trigger] consensus_state_bytes(m) == data@ && m.root.len() == 32
                    && m.next_validators_hash.len() == 32 implies cs@ == m by {
                assert(abi_consensus_state((m.timestamp, m.root, m.next_validators_hash)) == data@);
            }
            let encoded = encode_consensus_state_bytes(&cs);
            if bytes_equal(encoded.as_slice(), data) {
                assert(consensus_state_bytes(cs@) == data@ && cs@.root.len() == 32
                    && cs@.next_validators_hash.len() == 32);
                Ok(cs)
            } else {
                Err(RelayError::MalformedState)
            }
        },
    }
}

/// The light client module: decodes and encodes the light client's states for the
/// host engine.
#[derive(Debug, Clone, Copy)]
pub struct Module {
    /// The interface through which this instance is reached.
    pub ibc_interface: SupportedIbcInterfaces,
    /// The proof system of this instance.
    pub zk_algorithm: SupportedZkAlgorithms,
}

impl Module {
    /// Sets up the module for the client type, consensus type and interface that the
    /// host engine names. Proofs are made with Plonk.
    pub fn new(client_type: &str, consensus_type: &str, ibc_interface: &str) -> (r: Result<Module, RelayError>)
        ensures
            r is Ok <==> (client_type@ == SP1_ICS07_CLIENT_TYPE@ && consensus_type@
                == TENDERMINT_CONSENSUS_TYPE@ && ibc_interface@ == IBC_EUREKA_INTERFACE@),
            r is Ok ==> r->Ok_0.ibc_interface == SupportedIbcInterfaces::SolidityIbcEureka
                && r->Ok_0.zk_algorithm == SupportedZkAlgorithms::Plonk,
            client_type@ != SP1_ICS07_CLIENT_TYPE@ ==> r == Err::<Module, RelayError>(
                RelayError::UnsupportedClientType,
            ),
            client_type@ == SP1_ICS07_CLIENT_TYPE@ && consensus_type@ != TENDERMINT_CONSENSUS_TYPE@
                ==> r == Err::<Module, RelayError>(RelayError::UnsupportedConsensusType),
            client_type@ == SP1_ICS07_CLIENT_TYPE@ && consensus_type@ == TENDERMINT_CONSENSUS_TYPE@
                && ibc_interface@ != IBC_EUREKA_INTERFACE@ ==> r == Err::<Module, RelayError>(
                RelayError::UnsupportedInterface,
            ),
    {
        if !str_eq(client_type, SP1_ICS07_CLIENT_TYPE) {
            return Err(RelayError::UnsupportedClientType);
        }
        if !str_eq(consensus_type, TENDERMINT_CONSENSUS_TYPE) {
            return Err(RelayError::UnsupportedConsensusType);
        }
        match SupportedIbcInterfaces::try_from_name(ibc_interface) {
            Ok(i) => Ok(Module { ibc_interface: i, zk_algorithm: SupportedZkAlgorithms::Plonk }),
            Err(e) => Err(e),
        }
    }

    /// Decodes a client state handed in by a counterparty.
    pub fn decode_client_state(&self, client_state: &[u8]) -> (r: Result<ClientState, RelayError>)
        ensures
            r is Ok <==> is_client_state_encoding(client_state@),
            r is Ok ==> client_state_bytes(r->Ok_0@) == client_state@,
            forall|m: ClientStateView| #[trigger] client_state_bytes(m) == client_state@ ==> r is Ok
                && r->Ok_0@ == m,
            r is Err ==> r->Err_0 == RelayError::MalformedState,
    {
        match self.ibc_interface {
            SupportedIbcInterfaces::SolidityIbcEureka => decode_client_state_bytes(client_state),
        }
    }

    /// Decodes a consensus state handed in by a counterparty.
    pub fn decode_consensus_state(&self, consensus_state: &[u8]) -> (r: Result<ConsensusState, RelayError>)
        ensures
            r is Ok <==> is_consensus_state_encoding(consensus_state@),
            r is Ok ==> consensus_state_bytes(r->Ok_0@) == consensus_state@,
            forall|m: ConsensusStateView|
                #[trigger] consensus_state_bytes(m) == consensus_state@ && m.root.len() == 32
                    && m.next_validators_hash.len() == 32 ==> r is Ok && r->Ok_0@ == m,
            r is Err ==> r->Err_0 == RelayError::MalformedState,
    {
        match self.ibc_interface {
            SupportedIbcInterfaces::SolidityIbcEureka => decode_consensus_state_bytes(consensus_state),
        }
    }

    /// The chain id and the latest height of an encoded client state.
    pub fn decode_client_state_meta(&self, client_state: &[u8]) -> (r: Result<ClientStateMeta, RelayError>)
        ensures
            r is Ok <==> is_client_state_encoding(client_state@),
            forall|m: ClientStateView| #[trigger] client_state_bytes(m) == client_state@ ==> r is Ok
                && r->Ok_0.chain_id@ == m.chain_id && r->Ok_0.height == (Height {
                    revision_number: m.latest_height.revision_number as u64,
                    revision_height: m.latest_height.revision_height as u64,
                }),
            r is Err ==> r->Err_0 == RelayError::MalformedState,
    {
        match self.decode_client_state(client_state) {
            Ok(cs) => {
                let height = cs.latest_height.into_unionlabs_height();
                Ok(ClientStateMeta { chain_id: cs.chain_id, height })
            },
            Err(e) => Err(e),
        }
    }

    /// The timestamp of an encoded consensus state, in nanoseconds since the Unix epoch.
    /// A timestamp whose nanoseconds do not fit in 64 bits is refused as out of range.
    pub fn decode_consensus_state_meta(&self, consensus_state: &[u8]) -> (r: Result<u64, RelayError>)
        ensures
            !is_consensus_state_encoding(consensus_state@) ==> r == Err::<u64, RelayError>(
                RelayError::MalformedState,
            ),
            forall|m: ConsensusStateView|
                #[trigger] consensus_state_bytes(m) == consensus_state@ && m.root.len() == 32
                    && m.next_validators_hash.len() == 32 ==> if m.timestamp * NANOS_PER_SECOND
                    <= u64::MAX {
                    r == Ok::<u64, RelayError>((m.timestamp * NANOS_PER_SECOND) as u64)
                } else {
                    r == Err::<u64, RelayError>(RelayError::OutOfRange)
                },
            r is Err ==> r->Err_0 == RelayError::MalformedState || r->Err_0 == RelayError::OutOfRange,
    {
        match self.decode_consensus_state(consensus_state) {
            Ok(cs) => {
                if cs.timestamp <= u64::MAX / NANOS_PER_SECOND {
                    proof {
                        assert(cs.timestamp * NANOS_PER_SECOND <= u64::MAX) by (nonlinear_arith)
                            requires cs.timestamp <= u64::MAX / NANOS_PER_SECOND;
                    }
                    Ok(cs.timestamp * NANOS_PER_SECOND)
                } else {
                    proof {
                        assert(cs.timestamp * NANOS_PER_SECOND > u64::MAX) by (nonlinear_arith)
                            requires cs.timestamp > u64::MAX / NANOS_PER_SECOND;
                    }
                    Err(RelayError::OutOfRange)
                }
            },
            Err(e) => Err(e),
        }
    }

    /// Encodes a client state for the counterparty. This client type takes no metadata:
    /// where some is handed in, the request is refused.
    pub fn encode_client_state(&self, client_state: &ClientState, metadata_is_null: bool) -> (r: Result<Vec<u8>, RelayError>)
        ensures
            metadata_is_null <==> r is Ok,
            r is Ok ==> r->Ok_0@ == client_state_bytes(client_state@),
            r is Err ==> r->Err_0 == RelayError::UnexpectedMetadata,
    {
        match self.ibc_interface {
            SupportedIbcInterfaces::SolidityIbcEureka => {
                if !metadata_is_null {
                    return Err(RelayError::UnexpectedMetadata);
                }
                Ok(encode_client_state_bytes(client_state))
            },
        }
    }

    /// Encodes a consensus state for the counterparty.
    pub fn encode_consensus_state(&self, consensus_state: &ConsensusState) -> (r: Vec<u8>)
        ensures
            r@ == consensus_state_bytes(consensus_state@),
    {
        match self.ibc_interface {
            SupportedIbcInterfaces::SolidityIbcEureka => encode_consensus_state_bytes(consensus_state),
        }
    }

    /// Encodes a membership proof for the counterparty's verifier.
    pub fn encode_proof(&self, proof: &MembershipProof) -> (r: Vec<u8>)
        ensures
            r@ == membership_proof_bytes(proof.proof_type, proof.proof@),
    {
        let code: u8 = match proof.proof_type {
            MembershipProofType::SP1MembershipProof => 0,
            MembershipProofType::SP1MembershipAndUpdateClientProof => 1,
        };
        match self.ibc_interface {
            SupportedIbcInterfaces::SolidityIbcEureka => encode_membership_proof_words(&(code, proof.proof.clone())),
        }
    }
}

} // verus!
