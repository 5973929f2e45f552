//! JSON-RPC 2.0 request and response envelopes.
//!
//! A response built by this library carries exactly one of a result or an
//! error. Responses read from the wire may carry both or neither; they are
//! accepted as they are and `into_result` decides between them.

use vstd::prelude::*;

use crate::error::{code, A2AError};

verus! {

/// A JSON-RPC 2.0 request envelope.
#[derive(Debug, Clone, PartialEq)]
pub struct JsonRpcRequest {
    /// Protocol version, "2.0" for requests built here.
    pub jsonrpc: String,
    /// The operation to invoke.
    pub method: String,
    /// Operation-specific parameters, absent from the wire when `None`.
    pub params: Option<serde_json::Value>,
    /// Request identifier (string, number or null).
    pub id: serde_json::Value,
}

/// A JSON-RPC 2.0 response envelope.
#[derive(Debug, Clone, PartialEq)]
pub struct JsonRpcResponse {
    /// Protocol version, "2.0" for responses built here.
    pub jsonrpc: String,
    pub(crate) result: Option<serde_json::Value>,
    pub(crate) error: Option<A2AError>,
    /// The id of the request this response answers.
    pub id: serde_json::Value,
}

impl JsonRpcRequest {
    /// A request with parameters; `jsonrpc` is "2.0".
    pub fn new(method: &str, params: serde_json::Value, id: serde_json::Value) -> (r: Self)
        ensures
            r.jsonrpc@ == "2.0"@,
            r.method@ == method@,
            r.params == Some(params),
            r.id == id,
    {
        JsonRpcRequest { jsonrpc: "2.0".to_owned(), method: method.to_owned(), params: Some(params), id }
    }

    /// A request without parameters; `jsonrpc` is "2.0".
    pub fn without_params(method: &str, id: serde_json::Value) -> (r: Self)
        ensures
            r.jsonrpc@ == "2.0"@,
            r.method@ == method@,
            r.params is None,
            r.id == id,
    {
        JsonRpcRequest { jsonrpc: "2.0".to_owned(), method: method.to_owned(), params: None, id }
    }
}

impl JsonRpcResponse {
    /// The protocol version text of the response.
    pub closed spec fn spec_jsonrpc(&self) -> Seq<char> {
        self.jsonrpc@
    }

    /// The request id the response answers.
    pub closed spec fn spec_id(&self) -> serde_json::Value {
        self.id
    }

    /// The result carried by the response.
    pub closed spec fn spec_result(&self) -> Option<serde_json::Value> {
        self.result
    }

    /// The error carried by the response.
    pub closed spec fn spec_error(&self) -> Option<A2AError> {
        self.error
    }

    /// Whether exactly one of result and error is present.
    pub open spec fn well_formed(&self) -> bool {
        self.spec_result() is Some <==> self.spec_error() is None
    }

    /// What a response stands for: its result when present, else its error
    /// when present; `None` when it carries neither.
    pub open spec fn outcome(&self) -> Option<Result<serde_json::Value, A2AError>> {
        if self.spec_result() is Some {
            Some(Ok(self.spec_result()->0))
        } else if self.spec_error() is Some {
            Some(Err(self.spec_error()->0))
        } else {
            None
        }
    }

    /// A success response: result present, error absent.
    pub fn success(result: serde_json::Value, id: serde_json::Value) -> (r: Self)
        ensures
            r.spec_jsonrpc() == "2.0"@,
            r.spec_result() == Some(result),
            r.spec_error() is None,
            r.spec_id() == id,
            r.well_formed(),
    {
        JsonRpcResponse { jsonrpc: "2.0".to_owned(), result: Some(result), error: None, id }
    }

    /// An error response: error present, result absent.
    pub fn error(error: A2AError, id: serde_json::Value) -> (r: Self)
        ensures
            r.spec_jsonrpc() == "2.0"@,
            r.spec_result() is None,
            r.spec_error() == Some(error),
            r.spec_id() == id,
            r.well_formed(),
    {
        JsonRpcResponse { jsonrpc: "2.0".to_owned(), result: None, error: Some(error), id }
    }

    /// A response exactly as read from the wire, which need not be well formed.
    pub fn from_wire_parts(
        jsonrpc: String,
        result: Option<serde_json::Value>,
        error: Option<A2AError>,
        id: serde_json::Value,
    ) -> (r: Self)
        ensures
            r.spec_jsonrpc() == jsonrpc@,
            r.spec_result() == result,
            r.spec_error() == error,
            r.spec_id() == id,
    {
        JsonRpcResponse { jsonrpc, result, error, id }
    }

    /// The result value, if present.
    pub fn result(&self) -> (r: Option<&serde_json::Value>)
        ensures
            r is Some <==> self.spec_result() is Some,
            r is Some ==> *r->0 == self.spec_result()->0,
    {
        self.result.as_ref()
    }

    /// The error, if present.
    pub fn a2a_error(&self) -> (r: Option<&A2AError>)
        ensures
            r is Some <==> self.spec_error() is Some,
            r is Some ==> *r->0 == self.spec_error()->0,
    {
        self.error.as_ref()
    }

    /// Whether the response carries a result.
    pub fn is_success(&self) -> (r: bool)
        ensures
            r == self.spec_result() is Some,
    {
        self.result.is_some()
    }

    /// The result as `Ok`, else the error as `Err`; the result wins when both
    /// are present, and a response with neither gives a transport error.
    pub fn into_result(self) -> (r: Result<serde_json::Value, A2AError>)
        ensures
            self.spec_result() is Some ==> r == Ok::<serde_json::Value, A2AError>(self.spec_result()->0),
            self.spec_result() is None && self.spec_error() is Some ==> r == Err::<serde_json::Value, A2AError>(self.spec_error()->0),
            self.spec_result() is None && self.spec_error() is None ==> (r matches Err(e) && e.code == code::TRANSPORT_ERROR
                && e.message@ == "transport error: "@ + "response contains neither result nor error"@
                && e.data is None),
            self.outcome() is Some ==> r == self.outcome()->0,
    {
        match self.result {
            Some(result) => Ok(result),
            None => match self.error {
                Some(error) => Err(error),
                None => Err(A2AError::transport("response contains neither result nor error")),
            },
        }
    }
}

/// A success response stands for its value and an error response for its
/// error: what `into_result` gives back is what the response was built from.
pub proof fn lemma_built_response_outcome(r: JsonRpcResponse, v: serde_json::Value, e: A2AError)
    requires
        r.well_formed(),
    ensures
        r.spec_result() == Some(v) ==> r.outcome() == Some(Ok::<serde_json::Value, A2AError>(v)),
        r.spec_error() == Some(e) ==> r.outcome() == Some(Err::<serde_json::Value, A2AError>(e)),
        r.outcome() is Some,
{
}

} // verus!
