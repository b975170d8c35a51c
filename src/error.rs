//! The failures of the relay pipeline.
use vstd::prelude::*;

verus! {

/// Why a request to the pipeline failed.
#[derive(Debug, Clone, PartialEq, Eq)]
pub enum RelayError {
    /// The path is defined by IBC but has no storage layout on this execution chain.
    UnsupportedPath,
    /// A packet path's sequence is zero; packet sequences start at one.
    ZeroSequence,
    /// A collaborator (the execution chain, the beacon chain, the Tendermint chain or the
    /// proving backend) failed to answer; the request may be tried again.
    CollaboratorFailure,
    /// A collaborator answered with something other than the one item that was asked for.
    IntegrityViolation,
    /// A collaborator's answer does not belong to the step that is waiting for it.
    UnexpectedReply,
    /// Bytes handed in as a client or consensus state are not a valid encoding of one.
    MalformedState,
    /// A value does not fit the range that its consumer accepts.
    OutOfRange,
    /// Metadata was handed in where this client type takes none.
    UnexpectedMetadata,
    /// The collaborator reports another chain than the one that was configured.
    ChainIdMismatch,
    /// The host engine asked for another client type than this light client.
    UnsupportedClientType,
    /// The host engine asked for another consensus type than this light client tracks.
    UnsupportedConsensusType,
    /// The configured IBC interface is not one that this client supports.
    UnsupportedInterface,
    /// The configured proof type is not one that the proving backend supports.
    UnsupportedProofType,
    /// The verifying key is not `0x` followed by 64 hexadecimal digits.
    MalformedVerifyingKey,
    /// The network's gas price is above the configured maximum.
    GasPriceTooHigh { max: u128, price: u128 },
}

} // verus!
