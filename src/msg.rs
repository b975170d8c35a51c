//! Messages that the relay hands to the transaction submitter.
use vstd::prelude::*;

verus! {

/// A message for the execution chain's IBC contracts.
#[derive(Debug, Clone)]
pub enum IbcEurekaVoyagerMessage {
    /// Update a light client.
    UpdateClient(UpdateClientMsg),
}

/// An update of the light client `client_id` with the encoded update `msg`.
#[derive(Debug, Clone)]
pub struct UpdateClientMsg {
    pub client_id: String,
    pub msg: Vec<u8>,
}

impl From<UpdateClientMsg> for IbcEurekaVoyagerMessage {
    fn from(msg: UpdateClientMsg) -> (r: IbcEurekaVoyagerMessage) {
        IbcEurekaVoyagerMessage::UpdateClient(msg)
    }
}

impl vstd::std_specs::convert::FromSpecImpl<UpdateClientMsg> for IbcEurekaVoyagerMessage {
    open spec fn obeys_from_spec() -> bool {
        true
    }

    open spec fn from_spec(v: UpdateClientMsg) -> IbcEurekaVoyagerMessage {
        IbcEurekaVoyagerMessage::UpdateClient(v)
    }
}

} // verus!
