//! The chat-completion client: configuration, request framing and response
//! interpretation.
//!
//! The single HTTPS round trip is the caller's: it POSTs
//! [`Openai::request_body`] to [`Openai::endpoint_url`] with
//! [`Openai::auth_header_value`], and hands the outcome — the response body
//! text, or a transport failure description — to
//! [`Openai::interpret_response`].

use vstd::prelude::*;
use vstd::string::StringExecFns;
use crate::json::build_request_body;
use crate::json::request_body_json;
use crate::message::Message;
use crate::model::Model;

verus! {

/// serde_json's structural JSON value, carried opaquely to the caller.
#[verifier::external_type_specification]
#[verifier::external_body]
pub struct ExValue(serde_json::Value);

/// Whether a text is syntactically valid JSON, as serde_json accepts it.
pub uninterp spec fn is_json(s: Seq<char>) -> bool;

/// Relies on serde_json::from_str::<serde_json::Value>: whether parsing
/// succeeds depends on the input text alone.
#[verifier::external_body]
fn parse_json(s: &str) -> (r: Option<serde_json::Value>)
    ensures
        r is Some <==> is_json(s@),
{
    serde_json::from_str(s).ok()
}

/// The two failures a chat-completion request can end in.
#[derive(Debug)]
pub enum ApiError {
    /// The request failed before a response was obtained; carries the
    /// caller's description of the transport failure.
    Transport(String),
    /// A response body was received but is not valid JSON.
    Decode,
}

/// A chat-completion client: a model and an API key, immutable once built.
pub struct Openai {
    model: Model,
    api_key: String,
}

impl Openai {
    /// The model this client was built with.
    pub closed spec fn spec_model(&self) -> Model {
        self.model
    }

    /// The API key this client was built with.
    pub closed spec fn spec_api_key(&self) -> Seq<char> {
        self.api_key@
    }

    /// Creates a new client. Any key text is accepted, the empty one
    /// included; both fields are stored unchanged.
    pub fn new(api_key: String, model: Model) -> (r: Self)
        ensures
            r.spec_model() == model,
            r.spec_api_key() == api_key@,
    {
        Openai { model, api_key }
    }

    /// The model this client sends requests for.
    pub fn model(&self) -> (m: Model)
        ensures
            m == self.spec_model(),
    {
        self.model
    }

    /// The stored API key.
    pub fn api_key(&self) -> (k: &str)
        ensures
            k@ == self.spec_api_key(),
    {
        self.api_key.as_str()
    }

    /// The fixed URL every request is sent to.
    pub fn endpoint_url() -> (r: &'static str)
        ensures
            r@ == "https://api.openai.com/v1/chat/completions"@,
    {
        "https://api.openai.com/v1/chat/completions"
    }

    /// The bearer-authentication header value for this client's key.
    pub fn auth_header_value(&self) -> (r: String)
        ensures
            r@ == "Bearer "@ + self.spec_api_key(),
    {
        let mut r = "Bearer ".to_owned();
        r.append(self.api_key.as_str());
        r
    }

    /// The JSON request body for a conversation: the client's model and the
    /// messages in caller order.
    pub fn request_body(&self, messages: &Vec<Message>) -> (r: String)
        ensures
            r@ == request_body_json(self.spec_model(), messages@),
    {
        build_request_body(&self.model, messages)
    }

    /// Interprets the outcome of the HTTPS round trip. A transport failure is
    /// returned as [`ApiError::Transport`] with its description, and no
    /// decode is attempted. A received body — whatever the HTTP status was —
    /// is decoded as JSON: the structural value on success,
    /// [`ApiError::Decode`] if and only if the body is not valid JSON.
    pub fn interpret_response(outcome: Result<String, String>) -> (r: Result<
        serde_json::Value,
        ApiError,
    >)
        ensures
            outcome is Err ==> (r matches Result::Err(ApiError::Transport(m)) && m@
                == outcome->Err_0@),
            outcome is Ok ==> (r is Ok <==> is_json(outcome->Ok_0@)),
            outcome is Ok && !is_json(outcome->Ok_0@) ==> r matches Result::Err(ApiError::Decode),
    {
        match outcome {
            Result::Ok(body) => match parse_json(body.as_str()) {
                Option::Some(v) => Result::Ok(v),
                Option::None => Result::Err(ApiError::Decode),
            },
            Result::Err(msg) => Result::Err(ApiError::Transport(msg)),
        }
    }
}

} // verus!
