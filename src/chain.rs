//! The execution chain module: reads IBC state at the execution height that a beacon
//! slot stands for, and assembles storage proofs of it.
//!
//! Each operation is a sequence of steps. A step takes what the last request to the
//! execution or beacon chain returned and gives the next request, or the result. The
//! caller performs the requests.
use vstd::prelude::*;
use vstd::slice::slice_to_vec;

use crate::client::{
    client_state_bytes, encode_client_state_bytes, ClientState, IBC_EUREKA_INTERFACE,
    SP1_ICS07_CLIENT_TYPE,
};
use crate::error::RelayError;
use crate::hash::{
    derive_commitment_slot, is_zero_word, mapping_location, word_from_bytes, words_equal,
    zero_word,
};
use crate::height::{Height, EXECUTION_REVISION_NUMBER};
use crate::path::{
    decimal, is_commitment_path, path_error, push_decimal, storage_key, IbcEurekaPathExt, Path,
    PathModel,
};

verus! {

/// The storage slot of the commitment store's `mapping(bytes32 => bytes32) commitments`.
pub const IBC_STORE_COMMITMENTS_SLOT: u64 = 1;

/// The client prefix of the only client type that this chain serves.
pub const CLIENT_PREFIX: &'static str = "07-tendermint";

/// The client type and interface of the clients that this chain serves.
#[derive(Debug, Clone, Copy)]
pub struct ClientInfo {
    pub client_type: &'static str,
    pub ibc_interface: &'static str,
}

/// A 20-byte account on the execution chain.
#[derive(Debug, Clone, Copy)]
pub struct Address {
    pub bytes: [u8; 20],
}

/// One storage proof as the execution chain returns it.
#[derive(Debug, Clone)]
pub struct ProofEntry {
    pub key: [u8; 32],
    pub value: [u8; 32],
    pub proof: Vec<Vec<u8>>,
}

/// A storage proof in the form that the counterparty's verifier reads: big-endian
/// 256-bit key and value, and the proof's nodes from the root down.
#[derive(Debug, Clone)]
pub struct StorageProof {
    pub key: [u8; 32],
    pub value: [u8; 32],
    pub proof: Vec<Vec<u8>>,
}

/// A request to the beacon or execution chain.
#[derive(Debug, Clone)]
pub enum ChainRequest {
    /// The execution block height of the beacon block at `slot`.
    ExecutionHeight { slot: u64 },
    /// The address of the router's client registry.
    ClientRegistry,
    /// The address of the light client that `registry` holds under `client_id`.
    LightClient { registry: Address, client_id: String },
    /// The client state of the light client at `client`, read at execution block `block`.
    ClientStateAt { client: Address, block: u64 },
    /// The address of the router's commitment store.
    CommitmentStore,
    /// The commitment that `store` holds under `key`, read at execution block `block`.
    CommitmentAt { store: Address, key: [u8; 32], block: u64 },
    /// A proof of storage location `location` of `account` at execution block `block`.
    StorageProofAt { account: Address, location: [u8; 32], block: u64 },
}

/// What the beacon or execution chain returned for a request.
#[derive(Debug, Clone)]
pub enum ChainReply {
    ExecutionHeight(u64),
    Address(Address),
    ClientState(ClientState),
    Commitment([u8; 32]),
    StorageProofs(Vec<ProofEntry>),
    /// The request failed: the collaborator could not be reached or reported an error.
    Failed,
}

/// What a state read is for.
#[derive(Debug, Clone)]
pub enum FetchTarget {
    /// The client state of the light client registered under `client_id`.
    ClientState { client_id: String },
    /// The commitment stored under `key`.
    Commitment { key: [u8; 32] },
}

/// Where a state read stands: which reply it waits for.
#[derive(Debug, Clone)]
pub enum FetchState {
    AwaitExecutionHeight { target: FetchTarget },
    AwaitClientRegistry { client_id: String, block: u64 },
    AwaitLightClient { block: u64 },
    AwaitClientState,
    AwaitCommitmentStore { key: [u8; 32], block: u64 },
    AwaitCommitment,
}

/// The outcome of one step of a state read.
#[derive(Debug, Clone)]
pub enum FetchStep {
    /// Perform the request and hand its reply to the next step, in the given state.
    Ask(FetchState, ChainRequest),
    /// The encoded value, or `None` where nothing is stored.
    Done(Option<Vec<u8>>),
}

/// Where a proof request stands.
#[derive(Debug, Clone)]
pub enum ProofState {
    AwaitExecutionHeight { location: [u8; 32] },
    AwaitProof { location: [u8; 32] },
}

/// The outcome of one step of a proof request.
#[derive(Debug, Clone)]
pub enum ProofStep {
    Ask(ProofState, ChainRequest),
    Done(StorageProof),
}

/// The storage location in the commitment store that holds the value of a path.
pub open spec fn commitment_location(p: PathModel) -> Seq<u8> {
    mapping_location(storage_key(p), IBC_STORE_COMMITMENTS_SLOT)
}

/// Repackages the collaborator's answer to a one-key proof request. Exactly one proof of
/// exactly the requested location must come back; anything else is an integrity
/// violation.
pub fn assemble_proof(location: &[u8; 32], entries: Vec<ProofEntry>) -> (r: Result<StorageProof, RelayError>)
    ensures
        r is Ok <==> entries@.len() == 1 && entries@[0].key@ == location@,
        r is Ok ==> r->Ok_0.key@ == location@ && r->Ok_0.value == entries@[0].value
            && r->Ok_0.proof == entries@[0].proof,
        r is Err ==> r->Err_0 == RelayError::IntegrityViolation,
{
    let mut entries = entries;
    if entries.len() != 1 {
        return Err(RelayError::IntegrityViolation);
    }
    let entry = entries.pop().unwrap();
    if !words_equal(&entry.key, location) {
        return Err(RelayError::IntegrityViolation);
    }
    Ok(StorageProof { key: entry.key, value: entry.value, proof: entry.proof })
}

/// The value stored at a commitment path: a zero word means that nothing was written.
pub fn commitment_value(w: &[u8; 32]) -> (r: Option<Vec<u8>>)
    ensures
        w@ == zero_word() <==> r is None,
        r is Some ==> r->Some_0@ == w@,
{
    if is_zero_word(w) {
        None
    } else {
        Some(slice_to_vec(w.as_slice()))
    }
}

/// A read packet commitment or acknowledgement as a 32-byte word. A value of any other
/// length is an integrity violation.
pub fn commitment_word(value: Option<Vec<u8>>) -> (r: Result<Option<[u8; 32]>, RelayError>)
    ensures
        value is None ==> r == Ok::<Option<[u8; 32]>, RelayError>(None),
        value is Some ==> (r is Ok <==> value->Some_0@.len() == 32),
        value is Some && r is Ok ==> r->Ok_0 is Some && r->Ok_0->Some_0@ == value->Some_0@,
        r is Err ==> r->Err_0 == RelayError::IntegrityViolation,
{
    match value {
        None => Ok(None),
        Some(v) => match word_from_bytes(&v) {
            Some(w) => Ok(Some(w)),
            None => Err(RelayError::IntegrityViolation),
        },
    }
}

/// Whether a packet receipt is set: whether anything was read at its path.
pub fn receipt_is_set(value: &Option<Vec<u8>>) -> (r: bool)
    ensures
        r == value is Some,
{
    value.is_some()
}

/// The chain module for the execution chain.
#[derive(Debug, Clone)]
pub struct Module {
    /// The execution chain's id, in decimal.
    pub chain_id: String,
    /// The address of the IBC router contract.
    pub ics26_router_address: Address,
}

impl Module {
    /// Sets up the module once the execution chain has reported its id: it must be the
    /// configured one.
    pub fn new(expected_chain_id: &str, reported_chain_id: u64, ics26_router_address: Address) -> (r: Result<Module, RelayError>)
        ensures
            r is Ok <==> expected_chain_id@ == decimal(reported_chain_id as nat),
            r is Ok ==> r->Ok_0.chain_id@ == decimal(reported_chain_id as nat)
                && r->Ok_0.ics26_router_address == ics26_router_address,
            r is Err ==> r->Err_0 == RelayError::ChainIdMismatch,
    {
        let mut chain_id = String::new();
        push_decimal(&mut chain_id, reported_chain_id);
        assert(chain_id@ =~= decimal(reported_chain_id as nat));
        if !crate::text::str_eq(chain_id.as_str(), expected_chain_id) {
            return Err(RelayError::ChainIdMismatch);
        }
        Ok(Module { chain_id, ics26_router_address })
    }

    /// The height `height` of the execution chain.
    pub fn make_height(&self, height: u64) -> (r: Height)
        ensures
            r.revision_number == 0,
            r.revision_height == height,
    {
        Height { revision_number: EXECUTION_REVISION_NUMBER, revision_height: height }
    }

    /// The client prefix of the clients on this chain: one client type is served.
    pub fn query_client_prefix(&self, raw_client_id: u32) -> (r: &'static str)
        ensures
            r@ == CLIENT_PREFIX@,
    {
        CLIENT_PREFIX
    }

    /// The client type and interface of any client on this chain.
    pub fn client_info(&self, client_id: &str) -> (r: ClientInfo)
        ensures
            r.client_type@ == SP1_ICS07_CLIENT_TYPE@,
            r.ibc_interface@ == IBC_EUREKA_INTERFACE@,
    {
        ClientInfo { client_type: SP1_ICS07_CLIENT_TYPE, ibc_interface: IBC_EUREKA_INTERFACE }
    }

    /// Starts reading the value at `path` as of the beacon slot `height`: the first
    /// request asks for the execution height of the slot. Paths without a storage
    /// key on this chain are refused.
    pub fn fetch_ibc_state(&self, path: &Path, height: Height) -> (r: Result<(FetchState, ChainRequest), RelayError>)
        ensures
            r is Ok <==> path_error(path@) is None,
            r is Err ==> path_error(path@) == Some(r->Err_0),
            r is Ok ==> r->Ok_0.1 == (ChainRequest::ExecutionHeight { slot: height.revision_height }),
            r is Ok && path@ is ClientState ==> (r->Ok_0.0 matches FetchState::AwaitExecutionHeight {
                target: FetchTarget::ClientState { client_id },
            } && client_id@ == path@->ClientState_client_id),
            r is Ok && is_commitment_path(path@) ==> (r->Ok_0.0 matches FetchState::AwaitExecutionHeight {
                target: FetchTarget::Commitment { key },
            } && key@ == storage_key(path@)),
    {
        let request = ChainRequest::ExecutionHeight { slot: height.revision_height };
        match path {
            Path::ClientState { client_id } => {
                let target = FetchTarget::ClientState { client_id: client_id.clone() };
                Ok((FetchState::AwaitExecutionHeight { target }, request))
            },
            _ => match path.to_storage_key() {
                Ok(key) => {
                    Ok((FetchState::AwaitExecutionHeight { target: FetchTarget::Commitment { key } }, request))
                },
                Err(e) => Err(e),
            },
        }
    }

    /// Takes a state read one step on with the reply to its last request. Every read of
    /// a value is pinned at the execution height that the slot maps to. A reply
    /// that does not answer the request is refused.
    pub fn fetch_ibc_state_step(&self, state: FetchState, reply: ChainReply) -> (r: Result<FetchStep, RelayError>)
        ensures
            match (state, reply) {
                (
                    FetchState::AwaitExecutionHeight { target: FetchTarget::ClientState { client_id } },
                    ChainReply::ExecutionHeight(e),
                ) => r == Ok::<FetchStep, RelayError>(
                    FetchStep::Ask(
                        FetchState::AwaitClientRegistry { client_id, block: e },
                        ChainRequest::ClientRegistry,
                    ),
                ),
                (
                    FetchState::AwaitExecutionHeight { target: FetchTarget::Commitment { key } },
                    ChainReply::ExecutionHeight(e),
                ) => r == Ok::<FetchStep, RelayError>(
                    FetchStep::Ask(
                        FetchState::AwaitCommitmentStore { key, block: e },
                        ChainRequest::CommitmentStore,
                    ),
                ),
                (FetchState::AwaitClientRegistry { client_id, block }, ChainReply::Address(a)) => r
                    == Ok::<FetchStep, RelayError>(
                    FetchStep::Ask(
                        FetchState::AwaitLightClient { block },
                        ChainRequest::LightClient { registry: a, client_id },
                    ),
                ),
                (FetchState::AwaitLightClient { block }, ChainReply::Address(a)) => r == Ok::<
                    FetchStep,
                    RelayError,
                >(
                    FetchStep::Ask(
                        FetchState::AwaitClientState,
                        ChainRequest::ClientStateAt { client: a, block },
                    ),
                ),
                (FetchState::AwaitClientState, ChainReply::ClientState(cs)) => r matches Ok(
                    FetchStep::Done(Some(v)),
                ) && v@ == client_state_bytes(cs@),
                (FetchState::AwaitCommitmentStore { key, block }, ChainReply::Address(a)) => r
                    == Ok::<FetchStep, RelayError>(
                    FetchStep::Ask(
                        FetchState::AwaitCommitment,
                        ChainRequest::CommitmentAt { store: a, key, block },
                    ),
                ),
                (FetchState::AwaitCommitment, ChainReply::Commitment(w)) => if w@ == zero_word() {
                    r == Ok::<FetchStep, RelayError>(FetchStep::Done(None))
                } else {
                    r matches Ok(FetchStep::Done(Some(v))) && v@ == w@
                },
                (_, ChainReply::Failed) => r == Err::<FetchStep, RelayError>(RelayError::CollaboratorFailure),
                _ => r == Err::<FetchStep, RelayError>(RelayError::UnexpectedReply),
            },
    {
        match (state, reply) {
            (
                FetchState::AwaitExecutionHeight { target: FetchTarget::ClientState { client_id } },
                ChainReply::ExecutionHeight(e),
            ) => Ok(
                FetchStep::Ask(
                    FetchState::AwaitClientRegistry { client_id, block: e },
                    ChainRequest::ClientRegistry,
                ),
            ),
            (
                FetchState::AwaitExecutionHeight { target: FetchTarget::Commitment { key } },
                ChainReply::ExecutionHeight(e),
            ) => Ok(
                FetchStep::Ask(
                    FetchState::AwaitCommitmentStore { key, block: e },
                    ChainRequest::CommitmentStore,
                ),
            ),
            (FetchState::AwaitClientRegistry { client_id, block }, ChainReply::Address(a)) => Ok(
                FetchStep::Ask(
                    FetchState::AwaitLightClient { block },
                    ChainRequest::LightClient { registry: a, client_id },
                ),
            ),
            (FetchState::AwaitLightClient { block }, ChainReply::Address(a)) => Ok(
                FetchStep::Ask(FetchState::AwaitClientState, ChainRequest::ClientStateAt { client: a, block }),
            ),
            (FetchState::AwaitClientState, ChainReply::ClientState(cs)) => Ok(
                FetchStep::Done(Some(encode_client_state_bytes(&cs))),
            ),
            (FetchState::AwaitCommitmentStore { key, block }, ChainReply::Address(a)) => Ok(
                FetchStep::Ask(FetchState::AwaitCommitment, ChainRequest::CommitmentAt { store: a, key, block }),
            ),
            (FetchState::AwaitCommitment, ChainReply::Commitment(w)) => Ok(
                FetchStep::Done(commitment_value(&w)),
            ),
            (_, ChainReply::Failed) => Err(RelayError::CollaboratorFailure),
            _ => Err(RelayError::UnexpectedReply),
        }
    }

    /// Starts a storage proof of the value at `path` as of the beacon slot `at`: the
    /// location is the path's entry in the commitment store's mapping, and the first
    /// request asks for the execution height of the slot.
    pub fn query_ibc_proof(&self, path: &Path, at: Height) -> (r: Result<(ProofState, ChainRequest), RelayError>)
        ensures
            r is Ok <==> path_error(path@) is None,
            r is Err ==> path_error(path@) == Some(r->Err_0),
            r is Ok ==> r->Ok_0.1 == (ChainRequest::ExecutionHeight { slot: at.revision_height }),
            r is Ok ==> (r->Ok_0.0 matches ProofState::AwaitExecutionHeight { location } && location@
                == commitment_location(path@)),
    {
        match path.to_storage_key() {
            Ok(key) => {
                let location = derive_commitment_slot(&key, IBC_STORE_COMMITMENTS_SLOT);
                Ok(
                    (
                        ProofState::AwaitExecutionHeight { location },
                        ChainRequest::ExecutionHeight { slot: at.revision_height },
                    ),
                )
            },
            Err(e) => Err(e),
        }
    }

    /// Takes a proof request one step on. The proof is asked of the router's storage at
    /// the execution height of the slot, and exactly one proof of the location must come
    /// back.
    pub fn query_ibc_proof_step(&self, state: ProofState, reply: ChainReply) -> (r: Result<ProofStep, RelayError>)
        ensures
            match (state, reply) {
                (ProofState::AwaitExecutionHeight { location }, ChainReply::ExecutionHeight(e)) => r
                    == Ok::<ProofStep, RelayError>(
                    ProofStep::Ask(
                        ProofState::AwaitProof { location },
                        ChainRequest::StorageProofAt {
                            account: self.ics26_router_address,
                            location,
                            block: e,
                        },
                    ),
                ),
                (ProofState::AwaitProof { location }, ChainReply::StorageProofs(entries)) => {
                    &&& r is Ok <==> entries@.len() == 1 && entries@[0].key@ == location@
                    &&& r is Ok ==> (r->Ok_0 matches ProofStep::Done(p) && p.key@ == location@
                        && p.value == entries@[0].value && p.proof == entries@[0].proof)
                    &&& r is Err ==> r->Err_0 == RelayError::IntegrityViolation
                },
                (_, ChainReply::Failed) => r == Err::<ProofStep, RelayError>(RelayError::CollaboratorFailure),
                _ => r == Err::<ProofStep, RelayError>(RelayError::UnexpectedReply),
            },
    {
        match (state, reply) {
            (ProofState::AwaitExecutionHeight { location }, ChainReply::ExecutionHeight(e)) => Ok(
                ProofStep::Ask(
                    ProofState::AwaitProof { location },
                    ChainRequest::StorageProofAt { account: self.ics26_router_address, location, block: e },
                ),
            ),
            (ProofState::AwaitProof { location }, ChainReply::StorageProofs(entries)) => {
                match assemble_proof(&location, entries) {
                    Ok(p) => Ok(ProofStep::Done(p)),
                    Err(e) => Err(e),
                }
            },
            (_, ChainReply::Failed) => Err(RelayError::CollaboratorFailure),
            _ => Err(RelayError::UnexpectedReply),
        }
    }

    /// The latest finalized execution timestamp as the host engine takes it. A timestamp
    /// beyond the signed 64-bit range is refused.
    pub fn query_latest_timestamp(&self, execution_timestamp: u64) -> (r: Result<i64, RelayError>)
        ensures
            execution_timestamp <= i64::MAX ==> r == Ok::<i64, RelayError>(execution_timestamp as i64),
            execution_timestamp > i64::MAX ==> r == Err::<i64, RelayError>(RelayError::OutOfRange),
    {
        if execution_timestamp <= i64::MAX as u64 {
            Ok(execution_timestamp as i64)
        } else {
            Err(RelayError::OutOfRange)
        }
    }
}

} // verus!
