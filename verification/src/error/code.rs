//! Numeric error codes: the JSON-RPC 2.0 standard codes and the A2A domain codes.

use vstd::prelude::*;

verus! {

/// The request payload could not be parsed as JSON.
pub const PARSE_ERROR: i32 = -32700;

/// The JSON is not a valid JSON-RPC request object.
pub const INVALID_REQUEST: i32 = -32600;

/// An internal error on the server.
pub const INTERNAL_ERROR: i32 = -32603;

/// The method parameters are invalid.
pub const INVALID_PARAMS: i32 = -32602;

/// The method does not exist.
pub const METHOD_NOT_FOUND: i32 = -32601;

/// The referenced task does not exist.
pub const TASK_NOT_FOUND: i32 = -32001;

/// The task cannot be canceled in its current state.
pub const TASK_NOT_CANCELABLE: i32 = -32002;

/// The agent does not support the content type of the request.
pub const CONTENT_TYPE_NOT_SUPPORTED: i32 = -32003;

/// The requested operation is not supported by this agent.
pub const UNSUPPORTED_OPERATION: i32 = -32004;

/// A client-side transport failure; never returned by agents.
pub const TRANSPORT_ERROR: i32 = -1;

/// Push notifications are not supported by this agent.
pub const PUSH_NOTIFICATION_NOT_SUPPORTED: i32 = -32005;

} // verus!
