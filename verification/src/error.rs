//! Protocol errors: a numeric code, a message and optional structured data.

pub mod code;

use vstd::prelude::*;

use crate::json::{json_string, json_string_value};
use crate::text::{decimal_int, format_i32, join};

verus! {

/// An A2A protocol error with code, message and optional details.
#[derive(Debug, Clone, PartialEq)]
pub struct A2AError {
    /// Numeric error code from the A2A or JSON-RPC code table.
    pub code: i32,
    /// Human-readable description.
    pub message: String,
    /// Optional structured details.
    pub data: Option<serde_json::Value>,
}

impl A2AError {
    /// The referenced task does not exist.
    pub fn task_not_found(task_id: &str) -> (r: Self)
        ensures
            r.code == code::TASK_NOT_FOUND,
            r.message@ == "task not found: "@ + task_id@,
            r.data is None,
    {
        A2AError { code: code::TASK_NOT_FOUND, message: join("task not found: ", task_id), data: None }
    }

    /// The task cannot be canceled in its current state.
    pub fn task_not_cancelable(task_id: &str) -> (r: Self)
        ensures
            r.code == code::TASK_NOT_CANCELABLE,
            r.message@ == "task cannot be canceled: "@ + task_id@,
            r.data is None,
    {
        A2AError {
            code: code::TASK_NOT_CANCELABLE,
            message: join("task cannot be canceled: ", task_id),
            data: None,
        }
    }

    /// The content type of the request is not supported.
    pub fn content_type_not_supported(detail: &str) -> (r: Self)
        ensures
            r.code == code::CONTENT_TYPE_NOT_SUPPORTED,
            r.message@ == "content type not supported: "@ + detail@,
            r.data is None,
    {
        A2AError {
            code: code::CONTENT_TYPE_NOT_SUPPORTED,
            message: join("content type not supported: ", detail),
            data: None,
        }
    }

    /// The operation is not supported by this agent.
    pub fn unsupported_operation(operation: &str) -> (r: Self)
        ensures
            r.code == code::UNSUPPORTED_OPERATION,
            r.message@ == "operation not supported: "@ + operation@,
            r.data is None,
    {
        A2AError {
            code: code::UNSUPPORTED_OPERATION,
            message: join("operation not supported: ", operation),
            data: None,
        }
    }

    /// Push notifications are not supported by this agent.
    pub fn push_notification_not_supported() -> (r: Self)
        ensures
            r.code == code::PUSH_NOTIFICATION_NOT_SUPPORTED,
            r.message@ == "push notifications not supported"@,
            r.data is None,
    {
        A2AError {
            code: code::PUSH_NOTIFICATION_NOT_SUPPORTED,
            message: "push notifications not supported".to_owned(),
            data: None,
        }
    }

    /// Malformed request parameters. The detail goes into `data` as a JSON
    /// string; the message stays the generic "invalid parameters".
    pub fn invalid_params(detail: &str) -> (r: Self)
        ensures
            r.code == code::INVALID_PARAMS,
            r.message@ == "invalid parameters"@,
            r.data == Some(json_string_value(detail@)),
    {
        A2AError {
            code: code::INVALID_PARAMS,
            message: "invalid parameters".to_owned(),
            data: Some(json_string(detail.to_owned())),
        }
    }

    /// An unrecognised JSON-RPC method; the message names the method.
    pub fn method_not_found(method: &str) -> (r: Self)
        ensures
            r.code == code::METHOD_NOT_FOUND,
            r.message@ == "unknown method: "@ + method@,
            r.data is None,
    {
        A2AError { code: code::METHOD_NOT_FOUND, message: join("unknown method: ", method), data: None }
    }

    /// A client-side transport failure.
    pub fn transport(detail: &str) -> (r: Self)
        ensures
            r.code == code::TRANSPORT_ERROR,
            r.message@ == "transport error: "@ + detail@,
            r.data is None,
    {
        A2AError { code: code::TRANSPORT_ERROR, message: join("transport error: ", detail), data: None }
    }

    /// A request body that is not valid JSON; the detail goes into `data`.
    pub fn parse_error(detail: &str) -> (r: Self)
        ensures
            r.code == code::PARSE_ERROR,
            r.message@ == "parse error"@,
            r.data == Some(json_string_value(detail@)),
    {
        A2AError {
            code: code::PARSE_ERROR,
            message: "parse error".to_owned(),
            data: Some(json_string(detail.to_owned())),
        }
    }

    /// An unexpected server-side failure; the detail goes into `data`.
    pub fn internal_error(detail: &str) -> (r: Self)
        ensures
            r.code == code::INTERNAL_ERROR,
            r.message@ == "internal error"@,
            r.data == Some(json_string_value(detail@)),
    {
        A2AError {
            code: code::INTERNAL_ERROR,
            message: "internal error".to_owned(),
            data: Some(json_string(detail.to_owned())),
        }
    }

    /// Attaches (or replaces) the structured data; code and message are kept.
    pub fn with_data(self, data: serde_json::Value) -> (r: Self)
        ensures
            r.code == self.code,
            r.message == self.message,
            r.data == Some(data),
    {
        A2AError { code: self.code, message: self.message, data: Some(data) }
    }

    /// The display text: "A2A error {code}: {message}".
    pub fn to_string(&self) -> (r: String)
        ensures
            r@ == "A2A error "@ + decimal_int(self.code as int) + ": "@ + self.message@,
    {
        let mut out = "A2A error ".to_owned();
        let digits = format_i32(self.code);
        out.append(digits.as_str());
        out.append(": ");
        out.append(self.message.as_str());
        out
    }
}

} // verus!
