//! Submission of light client updates to the execution chain.
//!
//! A submission is a sequence of steps: each takes the reply to the last request to the
//! execution chain and gives the next request, until the update is confirmed.
use vstd::prelude::*;

use crate::chain::Address;
use crate::error::RelayError;
use crate::msg::{IbcEurekaVoyagerMessage, UpdateClientMsg};
use crate::path::{decimal, push_decimal};
use crate::text::str_eq;

verus! {

/// A request to the execution chain.
#[derive(Debug, Clone)]
pub enum TxRequest {
    /// The address of the router's client registry.
    ClientRegistry,
    /// The current gas price.
    GasPrice,
    /// Send `updateClient(client_id, msg)` to `registry` and wait for its receipt.
    UpdateClient { registry: Address, client_id: String, msg: Vec<u8> },
}

/// What the execution chain returned for a request.
#[derive(Debug, Clone)]
pub enum TxReply {
    Address(Address),
    GasPrice(u128),
    Confirmed,
    /// The request failed: the collaborator could not be reached or reported an error.
    Failed,
}

/// Where a submission stands.
#[derive(Debug, Clone)]
pub enum TxState {
    AwaitRegistry { update: UpdateClientMsg },
    AwaitGasPrice { registry: Address, update: UpdateClientMsg },
    AwaitConfirmation,
}

/// The outcome of one step of a submission.
#[derive(Debug, Clone)]
pub enum TxStep {
    Ask(TxState, TxRequest),
    Done,
}

/// Refuses a gas price above the configured maximum; without a maximum every price is
/// accepted.
pub fn validate_gas(max_gas_price: Option<u128>, gas_price: u128) -> (r: Result<(), RelayError>)
    ensures
        max_gas_price is Some && gas_price > max_gas_price->Some_0 ==> r == Err::<(), RelayError>(
            RelayError::GasPriceTooHigh { max: max_gas_price->Some_0, price: gas_price },
        ),
        !(max_gas_price is Some && gas_price > max_gas_price->Some_0) ==> r is Ok,
{
    match max_gas_price {
        Some(max) => {
            if gas_price > max {
                Err(RelayError::GasPriceTooHigh { max, price: gas_price })
            } else {
                Ok(())
            }
        },
        None => Ok(()),
    }
}

/// The transaction submitter for the execution chain.
#[derive(Debug, Clone)]
pub struct Module {
    /// The execution chain's id.
    pub chain_id: String,
    /// The highest gas price at which updates are sent, if any.
    pub max_gas_price: Option<u128>,
}

/// The request that sends an update.
pub open spec fn send_request(registry: Address, update: UpdateClientMsg) -> TxRequest {
    TxRequest::UpdateClient { registry, client_id: update.client_id, msg: update.msg }
}

impl Module {
    /// Sets up the submitter once the execution chain has reported its id: it must be
    /// the configured one.
    pub fn new(expected_chain_id: &str, reported_chain_id: u64, max_gas_price: Option<u128>) -> (r: Result<Module, RelayError>)
        ensures
            r is Ok <==> expected_chain_id@ == decimal(reported_chain_id as nat),
            r is Ok ==> r->Ok_0.chain_id@ == decimal(reported_chain_id as nat)
                && r->Ok_0.max_gas_price == max_gas_price,
            r is Err ==> r->Err_0 == RelayError::ChainIdMismatch,
    {
        let mut chain_id = String::new();
        push_decimal(&mut chain_id, reported_chain_id);
        assert(chain_id@ =~= decimal(reported_chain_id as nat));
        if !str_eq(chain_id.as_str(), expected_chain_id) {
            return Err(RelayError::ChainIdMismatch);
        }
        Ok(Module { chain_id, max_gas_price })
    }

    /// Starts submitting a message: the client registry is looked up first.
    pub fn submit_tx(&self, msg: IbcEurekaVoyagerMessage) -> (r: (TxState, TxRequest))
        ensures
            match msg {
                IbcEurekaVoyagerMessage::UpdateClient(update) => r == (
                    TxState::AwaitRegistry { update },
                    TxRequest::ClientRegistry,
                ),
            },
    {
        match msg {
            IbcEurekaVoyagerMessage::UpdateClient(update) => (
                TxState::AwaitRegistry { update },
                TxRequest::ClientRegistry,
            ),
        }
    }

    /// Takes a submission one step on. Where a maximum gas price is configured, the
    /// price is checked before the update is sent; a reply that does not answer the
    /// request is refused.
    pub fn submit_tx_step(&self, state: TxState, reply: TxReply) -> (r: Result<TxStep, RelayError>)
        ensures
            match (state, reply) {
                (TxState::AwaitRegistry { update }, TxReply::Address(a)) => match self.max_gas_price {
                    Some(_) => r == Ok::<TxStep, RelayError>(
                        TxStep::Ask(TxState::AwaitGasPrice { registry: a, update }, TxRequest::GasPrice),
                    ),
                    None => r == Ok::<TxStep, RelayError>(
                        TxStep::Ask(TxState::AwaitConfirmation, send_request(a, update)),
                    ),
                },
                (TxState::AwaitGasPrice { registry, update }, TxReply::GasPrice(p)) => match self.max_gas_price {
                    Some(max) => if p > max {
                        r == Err::<TxStep, RelayError>(RelayError::GasPriceTooHigh { max, price: p })
                    } else {
                        r == Ok::<TxStep, RelayError>(
                            TxStep::Ask(TxState::AwaitConfirmation, send_request(registry, update)),
                        )
                    },
                    None => r == Ok::<TxStep, RelayError>(
                        TxStep::Ask(TxState::AwaitConfirmation, send_request(registry, update)),
                    ),
                },
                (TxState::AwaitConfirmation, TxReply::Confirmed) => r == Ok::<TxStep, RelayError>(
                    TxStep::Done,
                ),
                (_, TxReply::Failed) => r == Err::<TxStep, RelayError>(RelayError::CollaboratorFailure),
                _ => r == Err::<TxStep, RelayError>(RelayError::UnexpectedReply),
            },
    {
        match (state, reply) {
            (TxState::AwaitRegistry { update }, TxReply::Address(a)) => {
                if self.max_gas_price.is_some() {
                    Ok(TxStep::Ask(TxState::AwaitGasPrice { registry: a, update }, TxRequest::GasPrice))
                } else {
                    let request = TxRequest::UpdateClient { registry: a, client_id: update.client_id, msg: update.msg };
                    Ok(TxStep::Ask(TxState::AwaitConfirmation, request))
                }
            },
            (TxState::AwaitGasPrice { registry, update }, TxReply::GasPrice(p)) => {
                match validate_gas(self.max_gas_price, p) {
                    Ok(()) => {
                        let request = TxRequest::UpdateClient { registry, client_id: update.client_id, msg: update.msg };
                        Ok(TxStep::Ask(TxState::AwaitConfirmation, request))
                    },
                    Err(e) => Err(e),
                }
            },
            (TxState::AwaitConfirmation, TxReply::Confirmed) => Ok(TxStep::Done),
            (_, TxReply::Failed) => Err(RelayError::CollaboratorFailure),
            _ => Err(RelayError::UnexpectedReply),
        }
    }
}

} // verus!
