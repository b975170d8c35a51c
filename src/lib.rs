//! State proofs and light-client updates for an IBC relay between an
//! execution chain with a beacon consensus layer and a Tendermint chain.
pub mod abi;
pub mod chain;
pub mod client;
pub mod error;
pub mod hash;
pub mod height;
pub mod msg;
pub mod path;
pub mod text;
pub mod transaction;
pub mod update;
