//! The light-client update workflow: from two checkpoints of the Tendermint chain to a
//! zero-knowledge proof of the header transition between them, ready to submit.
//!
//! The workflow has two stages, each a call that the host engine schedules. The first
//! turns a trusted and a target height into a trusted consensus state and a proposed
//! header, and continues with a wait for the target height followed by the second
//! stage. The second hands these to the proving backend and packages its proof.
use vstd::prelude::*;
use vstd::string::{StringExecFns, StringSliceAdditionalSpecFns};
use vstd::utf8::encode_utf8;

use crate::abi::{abi_sp1_proof, encode_sp1_proof_words};
use crate::client::{ClientState, ConsensusState, SupportedZkAlgorithms, TrustThreshold};
use crate::error::RelayError;
use crate::height::{ClientHeight, Height};
use crate::text::str_eq;

verus! {

/// The first stage: produce an update from `update_from`, a height the counterparty
/// already trusts, to `update_to`.
#[derive(Debug, Clone, Copy, PartialEq, Eq, Structural)]
pub struct FetchUpdate {
    pub update_from: Height,
    pub update_to: Height,
}

/// The second stage: prove the transition from the trusted consensus state to the
/// proposed header.
#[derive(Debug, Clone)]
pub struct FetchSP1Proof {
    /// The consensus state of the trusted checkpoint.
    pub trusted_consensus_state: ConsensusState,
    /// The proposed header, protobuf-encoded.
    pub proposed_header: Vec<u8>,
}

/// A call of this workflow.
#[derive(Debug, Clone)]
pub enum ModuleCall {
    FetchUpdate(FetchUpdate),
    FetchSP1Proof(FetchSP1Proof),
}

impl From<FetchUpdate> for ModuleCall {
    fn from(fetch_update: FetchUpdate) -> (r: ModuleCall) {
        ModuleCall::FetchUpdate(fetch_update)
    }
}

impl vstd::std_specs::convert::FromSpecImpl<FetchUpdate> for ModuleCall {
    open spec fn obeys_from_spec() -> bool {
        true
    }

    open spec fn from_spec(v: FetchUpdate) -> ModuleCall {
        ModuleCall::FetchUpdate(v)
    }
}

impl From<FetchSP1Proof> for ModuleCall {
    fn from(fetch_prove_request: FetchSP1Proof) -> (r: ModuleCall) {
        ModuleCall::FetchSP1Proof(fetch_prove_request)
    }
}

impl vstd::std_specs::convert::FromSpecImpl<FetchSP1Proof> for ModuleCall {
    open spec fn obeys_from_spec() -> bool {
        true
    }

    open spec fn from_spec(v: FetchSP1Proof) -> ModuleCall {
        ModuleCall::FetchSP1Proof(v)
    }
}

/// The result of the workflow.
#[derive(Debug, Clone)]
pub struct ProveResponse {
    /// The consensus state of the trusted checkpoint.
    pub trusted_consensus_state: ConsensusState,
    /// The proposed header, protobuf-encoded.
    pub proposed_header: Vec<u8>,
    /// The ABI-encoded proof: verifying key, public values and proof bytes.
    pub sp1_proof: Vec<u8>,
}

/// The data that the workflow hands back to the host engine.
#[derive(Debug, Clone)]
pub enum ModuleData {
    ProveResponse(ProveResponse),
}

impl From<ProveResponse> for ModuleData {
    fn from(prove_response: ProveResponse) -> (r: ModuleData) {
        ModuleData::ProveResponse(prove_response)
    }
}

impl vstd::std_specs::convert::FromSpecImpl<ProveResponse> for ModuleData {
    open spec fn obeys_from_spec() -> bool {
        true
    }

    open spec fn from_spec(v: ProveResponse) -> ModuleData {
        ModuleData::ProveResponse(v)
    }
}

/// A wait until `height` of chain `chain_id` is finalized.
#[derive(Debug, Clone)]
pub struct WaitForHeight {
    pub chain_id: String,
    pub height: Height,
}

/// A call addressed to the plugin named `plugin`.
#[derive(Debug, Clone)]
pub struct PluginMessage {
    pub plugin: String,
    pub message: ModuleCall,
}

/// What the first stage hands back: a wait, and only after it the second stage.
#[derive(Debug, Clone)]
pub struct Continuation {
    pub wait: WaitForHeight,
    pub next: PluginMessage,
}

/// A request to the Tendermint chain or to the proving backend.
#[derive(Debug, Clone)]
pub enum UpdateRequest {
    /// Fetch the light blocks at heights `trusted` and `target`; reply with the trusted
    /// block's consensus state and the header that proposes the target block over it.
    LightBlocks { trusted: u64, target: u64 },
    /// Prove, at the current time, that the header is valid over the trusted consensus
    /// state for a light client in the given client state.
    Prove { client_state: ClientState, trusted_consensus_state: ConsensusState, proposed_header: Vec<u8> },
}

/// What the Tendermint chain or the proving backend returned for a request.
#[derive(Debug, Clone)]
pub enum UpdateReply {
    LightBlocks { trusted_consensus_state: ConsensusState, proposed_header: Vec<u8> },
    Proof { verifying_key: String, proof: Vec<u8>, public_values: Vec<u8> },
    /// The request failed: the collaborator could not be reached or reported an error.
    Failed,
}

/// Where a call stands.
#[derive(Debug, Clone)]
pub enum UpdateState {
    AwaitLightBlocks { fetch: FetchUpdate },
    AwaitProof { call: FetchSP1Proof },
}

/// What a call hands back to the host engine.
#[derive(Debug, Clone)]
pub enum UpdateOutcome {
    /// More work to schedule.
    Continue(Continuation),
    /// The finished result.
    Data(ModuleData),
}

/// The largest height that a Tendermint block can have.
pub const MAX_TENDERMINT_HEIGHT: u64 = 9_223_372_036_854_775_807;

/// The value of the hexadecimal digit `b`, if it is one.
pub open spec fn hex_value(b: u8) -> Option<u8> {
    if 48 <= b <= 57 {
        Some((b - 48) as u8)
    } else if 97 <= b <= 102 {
        Some((b - 87) as u8)
    } else if 65 <= b <= 70 {
        Some((b - 55) as u8)
    } else {
        None
    }
}

/// Whether `s` is `0x` followed by 64 hexadecimal digits.
pub open spec fn is_key_hex(s: Seq<u8>) -> bool {
    &&& s.len() == 66
    &&& s[0] == 48u8
    &&& s[1] == 120u8
    &&& forall|i: int| 2 <= i < 66 ==> (#[trigger] hex_value(s[i])) is Some
}

/// The 32 bytes that a `0x`-prefixed hexadecimal key spells, most significant digit first.
pub open spec fn key_hex_bytes(s: Seq<u8>) -> Seq<u8> {
    Seq::new(
        32,
        |i: int| (hex_value(s[2 + 2 * i])->Some_0 * 16 + hex_value(s[3 + 2 * i])->Some_0) as u8,
    )
}

/// The ABI encoding of a proof with its verifying key and public values.
pub open spec fn sp1_proof_bytes(vkey: Seq<u8>, public_values: Seq<u8>, proof: Seq<u8>) -> Seq<u8> {
    abi_sp1_proof((vkey, public_values, proof))
}

/// The value of one hexadecimal digit.
fn hex_digit(b: u8) -> (r: Option<u8>)
    ensures
        r == hex_value(b),
{
    if 48 <= b && b <= 57 {
        Some(b - 48)
    } else if 97 <= b && b <= 102 {
        Some(b - 87)
    } else if 65 <= b && b <= 70 {
        Some(b - 55)
    } else {
        None
    }
}

/// Reads a verifying key written as `0x` and 64 hexadecimal digits.
pub fn parse_verifying_key(s: &str) -> (r: Result<[u8; 32], RelayError>)
    ensures
        r is Ok <==> is_key_hex(s.spec_bytes()),
        r is Ok ==> r->Ok_0@ == key_hex_bytes(s.spec_bytes()),
        r is Err ==> r->Err_0 == RelayError::MalformedVerifyingKey,
{
    let b = s.as_bytes();
    if b.len() != 66 || b[0] != 48 || b[1] != 120 {
        return Err(RelayError::MalformedVerifyingKey);
    }
    let mut out = [0u8; 32];
    let mut i: usize = 0;
    while i < 32
        invariant
            i <= 32,
            b@ == s.spec_bytes(),
            b@.len() == 66,
            b@[0] == 48u8,
            b@[1] == 120u8,
            forall|k: int| 2 <= k < 2 + 2 * i ==> (#[trigger] hex_value(b@[k])) is Some,
            forall|k: int| 0 <= k < i ==> out@[k] == key_hex_bytes(b@)[k],
        decreases 32 - i,
    {
        let hi = hex_digit(b[2 + 2 * i]);
        let lo = hex_digit(b[3 + 2 * i]);
        match (hi, lo) {
            (Some(h), Some(l)) => {
                out[i] = h * 16 + l;
                i = i + 1;
            },
            _ => {
                assert(!is_key_hex(b@)) by {
                    if hi is None {
                        assert(hex_value(b@[2 + 2 * i]) is None);
                    } else {
                        assert(hex_value(b@[3 + 2 * i]) is None);
                    }
                }
                return Err(RelayError::MalformedVerifyingKey);
            },
        }
    }
    assert(out@ =~= key_hex_bytes(b@));
    Ok(out)
}

/// The name under which the workflow's plugin takes calls: the package name and the
/// chain id, separated by a slash.
pub open spec fn plugin_name_of(package: Seq<char>, chain_id: Seq<char>) -> Seq<char> {
    package + "/"@ + chain_id
}

/// The update workflow for one Tendermint chain.
#[derive(Debug, Clone)]
pub struct Module {
    /// The id of the Tendermint chain.
    pub chain_id: String,
    /// The name of the package that runs the workflow.
    pub package: String,
    /// The trust threshold that proofs are made for.
    pub trust_threshold: TrustThreshold,
    /// The trusting period, in seconds, that proofs are made for.
    pub trusting_period: u32,
    /// The proof system of the proving backend.
    pub proof_type: SupportedZkAlgorithms,
}

impl Module {
    /// Sets up the workflow once the Tendermint chain has reported its id, which must be
    /// the configured one. The proof type is `groth16` or `plonk`.
    pub fn new(
        chain_id: String,
        reported_chain_id: &str,
        package: String,
        trust_threshold: TrustThreshold,
        trusting_period: u32,
        proof_type: &str,
    ) -> (r: Result<Module, RelayError>)
        ensures
            reported_chain_id@ != chain_id@ ==> r == Err::<Module, RelayError>(RelayError::ChainIdMismatch),
            reported_chain_id@ == chain_id@ && proof_type@ != "groth16"@ && proof_type@ != "plonk"@
                ==> r == Err::<Module, RelayError>(RelayError::UnsupportedProofType),
            r is Ok <==> reported_chain_id@ == chain_id@ && (proof_type@ == "groth16"@ || proof_type@ == "plonk"@),
            r is Ok ==> r->Ok_0.chain_id == chain_id && r->Ok_0.package == package
                && r->Ok_0.trust_threshold == trust_threshold && r->Ok_0.trusting_period == trusting_period
                && r->Ok_0.proof_type == (if proof_type@ == "groth16"@ {
                    SupportedZkAlgorithms::Groth16
                } else {
                    SupportedZkAlgorithms::Plonk
                }),
    {
        if !str_eq(reported_chain_id, chain_id.as_str()) {
            return Err(RelayError::ChainIdMismatch);
        }
        let proof_type = if str_eq(proof_type, "groth16") {
            SupportedZkAlgorithms::Groth16
        } else if str_eq(proof_type, "plonk") {
            SupportedZkAlgorithms::Plonk
        } else {
            return Err(RelayError::UnsupportedProofType);
        };
        Ok(Module { chain_id, package, trust_threshold, trusting_period, proof_type })
    }

    /// The name under which this workflow's plugin takes calls.
    pub fn plugin_name(&self) -> (r: String)
        ensures
            r@ == plugin_name_of(self.package@, self.chain_id@),
    {
        let mut name = String::new();
        name.append(self.package.as_str());
        name.append("/");
        name.append(self.chain_id.as_str());
        assert(name@ =~= plugin_name_of(self.package@, self.chain_id@));
        name
    }

    /// A client state built from the configured trust parameters, for when the light
    /// client's own cannot be read: its unbonding period is the trusting period, and its height and
    /// frozen flag play no part in an update proof.
    pub fn to_client_state(&self) -> (r: ClientState)
        ensures
            r.chain_id@ == self.chain_id@,
            r.trust_level == self.trust_threshold,
            r.trusting_period == self.trusting_period,
            r.unbonding_period == self.trusting_period,
            r.zk_algorithm == self.proof_type,
            r.latest_height == (ClientHeight { revision_number: 0, revision_height: 0 }),
            !r.is_frozen,
    {
        ClientState {
            chain_id: self.chain_id.clone(),
            trust_level: self.trust_threshold,
            latest_height: ClientHeight { revision_number: 0, revision_height: 0 },
            trusting_period: self.trusting_period,
            unbonding_period: self.trusting_period,
            is_frozen: false,
            zk_algorithm: self.proof_type,
        }
    }

    /// The heights of the two Tendermint light blocks that the first stage fetches: the
    /// trusted one and the target. A height beyond Tendermint's range is refused.
    pub fn light_block_heights(&self, fetch: &FetchUpdate) -> (r: Result<(u64, u64), RelayError>)
        ensures
            r is Ok <==> fetch.update_from.revision_height <= MAX_TENDERMINT_HEIGHT
                && fetch.update_to.revision_height <= MAX_TENDERMINT_HEIGHT,
            r is Ok ==> r->Ok_0 == (fetch.update_from.revision_height, fetch.update_to.revision_height),
            r is Err ==> r->Err_0 == RelayError::OutOfRange,
    {
        let from = fetch.update_from.revision_height;
        let to = fetch.update_to.revision_height;
        if from > MAX_TENDERMINT_HEIGHT || to > MAX_TENDERMINT_HEIGHT {
            return Err(RelayError::OutOfRange);
        }
        Ok((from, to))
    }

    /// The client state that proofs are made against: the light client's own, read from
    /// the chain, where the caller has it, and else the one built from the configured
    /// trust parameters.
    pub fn proving_client_state(&self, chain_client_state: Option<ClientState>) -> (r: ClientState)
        ensures
            chain_client_state is Some ==> r == chain_client_state->Some_0,
            chain_client_state is None ==> r.chain_id@ == self.chain_id@ && r.trust_level
                == self.trust_threshold && r.trusting_period == self.trusting_period
                && r.unbonding_period == self.trusting_period && r.zk_algorithm == self.proof_type
                && r.latest_height == (ClientHeight { revision_number: 0, revision_height: 0 })
                && !r.is_frozen,
    {
        match chain_client_state {
            Some(cs) => cs,
            None => self.to_client_state(),
        }
    }

    /// Starts a call: the first stage asks for the two light blocks, the second for a
    /// proof against the light client's own client state where the caller has read it,
    /// and else against the one built from the configuration.
    pub fn call(&self, msg: ModuleCall, chain_client_state: Option<ClientState>) -> (r: Result<(UpdateState, UpdateRequest), RelayError>)
        ensures
            match msg {
                ModuleCall::FetchUpdate(fetch) => {
                    &&& r is Ok <==> fetch.update_from.revision_height <= MAX_TENDERMINT_HEIGHT
                        && fetch.update_to.revision_height <= MAX_TENDERMINT_HEIGHT
                    &&& r is Ok ==> r->Ok_0 == (
                        UpdateState::AwaitLightBlocks { fetch },
                        UpdateRequest::LightBlocks {
                            trusted: fetch.update_from.revision_height,
                            target: fetch.update_to.revision_height,
                        },
                    )
                    &&& r is Err ==> r->Err_0 == RelayError::OutOfRange
                },
                ModuleCall::FetchSP1Proof(call) => r matches Ok(
                    (
                        UpdateState::AwaitProof { call: kept },
                        UpdateRequest::Prove { client_state, trusted_consensus_state, proposed_header },
                    ),
                ) && kept == call && trusted_consensus_state == call.trusted_consensus_state
                    && proposed_header@ == call.proposed_header@ && (chain_client_state is Some
                    ==> client_state == chain_client_state->Some_0) && (chain_client_state is None
                    ==> client_state.chain_id@ == self.chain_id@ && client_state.trust_level
                    == self.trust_threshold && client_state.trusting_period == self.trusting_period
                    && client_state.unbonding_period == self.trusting_period
                    && client_state.zk_algorithm == self.proof_type && !client_state.is_frozen),
            },
    {
        match msg {
            ModuleCall::FetchUpdate(fetch) => match self.light_block_heights(&fetch) {
                Ok((trusted, target)) => Ok(
                    (UpdateState::AwaitLightBlocks { fetch }, UpdateRequest::LightBlocks { trusted, target }),
                ),
                Err(e) => Err(e),
            },
            ModuleCall::FetchSP1Proof(call) => {
                let request = UpdateRequest::Prove {
                    client_state: self.proving_client_state(chain_client_state),
                    trusted_consensus_state: call.trusted_consensus_state,
                    proposed_header: call.proposed_header.clone(),
                };
                Ok((UpdateState::AwaitProof { call }, request))
            },
        }
    }

    /// Takes a call one step on. The first stage ends in a wait for the target height
    /// followed by the second stage; the second ends in the packaged proof. A reply that
    /// does not answer the request is refused.
    pub fn call_step(&self, state: UpdateState, reply: UpdateReply) -> (r: Result<UpdateOutcome, RelayError>)
        ensures
            match (state, reply) {
                (
                    UpdateState::AwaitLightBlocks { fetch },
                    UpdateReply::LightBlocks { trusted_consensus_state, proposed_header },
                ) => r matches Ok(UpdateOutcome::Continue(c)) && c.wait.chain_id@ == self.chain_id@
                    && c.wait.height == fetch.update_to && c.next.plugin@ == plugin_name_of(
                    self.package@,
                    self.chain_id@,
                ) && c.next.message == ModuleCall::FetchSP1Proof(
                    FetchSP1Proof { trusted_consensus_state, proposed_header },
                ),
                (
                    UpdateState::AwaitProof { call },
                    UpdateReply::Proof { verifying_key, proof, public_values },
                ) => {
                    &&& r is Ok <==> is_key_hex(encode_utf8(verifying_key@))
                    &&& r is Err ==> r->Err_0 == RelayError::MalformedVerifyingKey
                    &&& r is Ok ==> (r->Ok_0 matches UpdateOutcome::Data(ModuleData::ProveResponse(p))
                        && p.trusted_consensus_state == call.trusted_consensus_state
                        && p.proposed_header == call.proposed_header && p.sp1_proof@ == sp1_proof_bytes(
                        key_hex_bytes(encode_utf8(verifying_key@)),
                        public_values@,
                        proof@,
                    ))
                },
                (_, UpdateReply::Failed) => r == Err::<UpdateOutcome, RelayError>(RelayError::CollaboratorFailure),
                _ => r == Err::<UpdateOutcome, RelayError>(RelayError::UnexpectedReply),
            },
    {
        match (state, reply) {
            (
                UpdateState::AwaitLightBlocks { fetch },
                UpdateReply::LightBlocks { trusted_consensus_state, proposed_header },
            ) => Ok(
                UpdateOutcome::Continue(
                    self.fetch_update_continuation(&fetch, trusted_consensus_state, proposed_header),
                ),
            ),
            (UpdateState::AwaitProof { call }, UpdateReply::Proof { verifying_key, proof, public_values }) => {
                match self.prove_response(call, verifying_key.as_str(), proof, public_values) {
                    Ok(response) => Ok(UpdateOutcome::Data(ModuleData::ProveResponse(response))),
                    Err(e) => Err(e),
                }
            },
            (_, UpdateReply::Failed) => Err(RelayError::CollaboratorFailure),
            _ => Err(RelayError::UnexpectedReply),
        }
    }

    /// Ends the first stage: wait until the target height is finalized on the Tendermint
    /// chain, and only then prove the transition from the trusted consensus state to the
    /// proposed header.
    pub fn fetch_update_continuation(
        &self,
        fetch: &FetchUpdate,
        trusted_consensus_state: ConsensusState,
        proposed_header: Vec<u8>,
    ) -> (r: Continuation)
        ensures
            r.wait.chain_id@ == self.chain_id@,
            r.wait.height == fetch.update_to,
            r.next.plugin@ == plugin_name_of(self.package@, self.chain_id@),
            r.next.message == ModuleCall::FetchSP1Proof(
                FetchSP1Proof { trusted_consensus_state, proposed_header },
            ),
    {
        Continuation {
            wait: WaitForHeight { chain_id: self.chain_id.clone(), height: fetch.update_to },
            next: PluginMessage {
                plugin: self.plugin_name(),
                message: ModuleCall::FetchSP1Proof(FetchSP1Proof { trusted_consensus_state, proposed_header }),
            },
        }
    }

    /// Ends the second stage: packages what the proving backend returned for the call,
    /// its verifying key written in hexadecimal, the proof and its public values, with
    /// the call's consensus state and header.
    pub fn prove_response(
        &self,
        call: FetchSP1Proof,
        verifying_key: &str,
        proof: Vec<u8>,
        public_values: Vec<u8>,
    ) -> (r: Result<ProveResponse, RelayError>)
        ensures
            r is Ok <==> is_key_hex(verifying_key.spec_bytes()),
            r is Err ==> r->Err_0 == RelayError::MalformedVerifyingKey,
            r is Ok ==> r->Ok_0.trusted_consensus_state == call.trusted_consensus_state
                && r->Ok_0.proposed_header == call.proposed_header && r->Ok_0.sp1_proof@
                == sp1_proof_bytes(key_hex_bytes(verifying_key.spec_bytes()), public_values@, proof@),
    {
        match parse_verifying_key(verifying_key) {
            Ok(vkey) => {
                let sp1_proof = encode_sp1_proof_words(&(vkey, public_values, proof));
                Ok(
                    ProveResponse {
                        trusted_consensus_state: call.trusted_consensus_state,
                        proposed_header: call.proposed_header,
                        sp1_proof,
                    },
                )
            },
            Err(e) => Err(e),
        }
    }
}

} // verus!
