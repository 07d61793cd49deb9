//! The narrow gateway interface between the engine's world and a model
//! host: a request carries messages, a response carries text. The live
//! gateway over the network lives with the host program.

use vstd::prelude::*;

use crate::engine::BackendError;
use crate::message::Message;

verus! {

/// What a model is asked with: the ordered messages of the conversation.
pub struct ModelGatewayRequest {
    pub messages: Vec<Message>,
}

/// What a model answered with.
#[derive(Debug)]
pub struct ModelGatewayResponse {
    pub content: String,
}

/// A host for model chat requests; implementations may reach a network or
/// answer from a script.
pub trait ModelGateway {
    fn chat(&mut self, request: ModelGatewayRequest) -> Result<ModelGatewayResponse, BackendError>;
}

} // verus!
