//! The routing decisions of the JSON-RPC dispatcher: which operation a method
//! name selects, whether it streams, the parameters a request hands on, and
//! the response each outcome becomes. Running the handler is the caller's part.

use vstd::prelude::*;

use crate::error::A2AError;
use crate::json::{json_array_member, json_display_text, json_object_of, json_text_member};
use crate::jsonrpc::JsonRpcResponse;
use crate::operation::{
    METHOD_CANCEL_TASK, METHOD_CREATE_TASK_PUSH_NOTIFICATION_CONFIG, METHOD_DELETE_TASK_PUSH_NOTIFICATION_CONFIG,
    METHOD_GET_EXTENDED_AGENT_CARD, METHOD_GET_TASK, METHOD_GET_TASK_PUSH_NOTIFICATION_CONFIG,
    METHOD_LIST_TASKS, METHOD_LIST_TASK_PUSH_NOTIFICATION_CONFIGS, METHOD_SEND_MESSAGE,
    METHOD_SEND_STREAMING_MESSAGE, METHOD_SUBSCRIBE_TO_TASK,
};
use crate::text::text_eq;

verus! {

/// The operation a JSON-RPC method name selects.
#[derive(Debug, Clone, Copy, PartialEq, Eq, Structural)]
pub enum MethodRoute {
    /// `SendMessage`.
    SendMessage,
    /// `SendStreamingMessage` (streams).
    SendStreamingMessage,
    /// `GetTask`.
    GetTask,
    /// `ListTasks`.
    ListTasks,
    /// `CancelTask`.
    CancelTask,
    /// `SubscribeToTask` (streams).
    SubscribeToTask,
    /// `CreateTaskPushNotificationConfig`.
    CreateTaskPushNotificationConfig,
    /// `GetTaskPushNotificationConfig`.
    GetTaskPushNotificationConfig,
    /// `ListTaskPushNotificationConfigs`.
    ListTaskPushNotificationConfigs,
    /// `DeleteTaskPushNotificationConfig`.
    DeleteTaskPushNotificationConfig,
    /// `GetExtendedAgentCard`.
    GetExtendedAgentCard,
    /// Any other name: answered with a method-not-found error.
    Unknown,
}

impl MethodRoute {
    /// The method name of a known operation.
    pub open spec fn method_name(&self) -> Option<Seq<char>> {
        match self {
            MethodRoute::SendMessage => Some(METHOD_SEND_MESSAGE@),
            MethodRoute::SendStreamingMessage => Some(METHOD_SEND_STREAMING_MESSAGE@),
            MethodRoute::GetTask => Some(METHOD_GET_TASK@),
            MethodRoute::ListTasks => Some(METHOD_LIST_TASKS@),
            MethodRoute::CancelTask => Some(METHOD_CANCEL_TASK@),
            MethodRoute::SubscribeToTask => Some(METHOD_SUBSCRIBE_TO_TASK@),
            MethodRoute::CreateTaskPushNotificationConfig => Some(METHOD_CREATE_TASK_PUSH_NOTIFICATION_CONFIG@),
            MethodRoute::GetTaskPushNotificationConfig => Some(METHOD_GET_TASK_PUSH_NOTIFICATION_CONFIG@),
            MethodRoute::ListTaskPushNotificationConfigs => Some(METHOD_LIST_TASK_PUSH_NOTIFICATION_CONFIGS@),
            MethodRoute::DeleteTaskPushNotificationConfig => Some(METHOD_DELETE_TASK_PUSH_NOTIFICATION_CONFIG@),
            MethodRoute::GetExtendedAgentCard => Some(METHOD_GET_EXTENDED_AGENT_CARD@),
            MethodRoute::Unknown => None,
        }
    }

    /// Whether the operation answers with a stream of events.
    pub open spec fn streams(&self) -> bool {
        *self == MethodRoute::SendStreamingMessage || *self == MethodRoute::SubscribeToTask
    }
}

/// The operation a method name selects.
pub open spec fn spec_route(method: Seq<char>) -> MethodRoute {
    if method == METHOD_SEND_MESSAGE@ {
        MethodRoute::SendMessage
    } else if method == METHOD_SEND_STREAMING_MESSAGE@ {
        MethodRoute::SendStreamingMessage
    } else if method == METHOD_GET_TASK@ {
        MethodRoute::GetTask
    } else if method == METHOD_LIST_TASKS@ {
        MethodRoute::ListTasks
    } else if method == METHOD_CANCEL_TASK@ {
        MethodRoute::CancelTask
    } else if method == METHOD_SUBSCRIBE_TO_TASK@ {
        MethodRoute::SubscribeToTask
    } else if method == METHOD_CREATE_TASK_PUSH_NOTIFICATION_CONFIG@ {
        MethodRoute::CreateTaskPushNotificationConfig
    } else if method == METHOD_GET_TASK_PUSH_NOTIFICATION_CONFIG@ {
        MethodRoute::GetTaskPushNotificationConfig
    } else if method == METHOD_LIST_TASK_PUSH_NOTIFICATION_CONFIGS@ {
        MethodRoute::ListTaskPushNotificationConfigs
    } else if method == METHOD_DELETE_TASK_PUSH_NOTIFICATION_CONFIG@ {
        MethodRoute::DeleteTaskPushNotificationConfig
    } else if method == METHOD_GET_EXTENDED_AGENT_CARD@ {
        MethodRoute::GetExtendedAgentCard
    } else {
        MethodRoute::Unknown
    }
}

/// The operation a method name selects; unknown names route to `Unknown`.
pub fn route_method(method: &str) -> (r: MethodRoute)
    ensures
        r == spec_route(method@),
{
    if text_eq(method, METHOD_SEND_MESSAGE) {
        MethodRoute::SendMessage
    } else if text_eq(method, METHOD_SEND_STREAMING_MESSAGE) {
        MethodRoute::SendStreamingMessage
    } else if text_eq(method, METHOD_GET_TASK) {
        MethodRoute::GetTask
    } else if text_eq(method, METHOD_LIST_TASKS) {
        MethodRoute::ListTasks
    } else if text_eq(method, METHOD_CANCEL_TASK) {
        MethodRoute::CancelTask
    } else if text_eq(method, METHOD_SUBSCRIBE_TO_TASK) {
        MethodRoute::SubscribeToTask
    } else if text_eq(method, METHOD_CREATE_TASK_PUSH_NOTIFICATION_CONFIG) {
        MethodRoute::CreateTaskPushNotificationConfig
    } else if text_eq(method, METHOD_GET_TASK_PUSH_NOTIFICATION_CONFIG) {
        MethodRoute::GetTaskPushNotificationConfig
    } else if text_eq(method, METHOD_LIST_TASK_PUSH_NOTIFICATION_CONFIGS) {
        MethodRoute::ListTaskPushNotificationConfigs
    } else if text_eq(method, METHOD_DELETE_TASK_PUSH_NOTIFICATION_CONFIG) {
        MethodRoute::DeleteTaskPushNotificationConfig
    } else if text_eq(method, METHOD_GET_EXTENDED_AGENT_CARD) {
        MethodRoute::GetExtendedAgentCard
    } else {
        MethodRoute::Unknown
    }
}

/// Whether a method name is one of the two streaming operations,
/// `SendStreamingMessage` and `SubscribeToTask`.
pub fn is_streaming_method(method: &str) -> (r: bool)
    ensures
        r == (method@ == METHOD_SEND_STREAMING_MESSAGE@ || method@ == METHOD_SUBSCRIBE_TO_TASK@),
{
    text_eq(method, METHOD_SEND_STREAMING_MESSAGE) || text_eq(method, METHOD_SUBSCRIBE_TO_TASK)
}

/// The lengths of the method names, and the first letters of those of equal length.
proof fn lemma_method_name_shapes()
    ensures
        METHOD_SEND_MESSAGE@.len() == 11,
        METHOD_SEND_STREAMING_MESSAGE@.len() == 20,
        METHOD_GET_TASK@.len() == 7,
        METHOD_LIST_TASKS@.len() == 9,
        METHOD_CANCEL_TASK@.len() == 10,
        METHOD_SUBSCRIBE_TO_TASK@.len() == 15,
        METHOD_CREATE_TASK_PUSH_NOTIFICATION_CONFIG@.len() == 32,
        METHOD_GET_TASK_PUSH_NOTIFICATION_CONFIG@.len() == 29,
        METHOD_LIST_TASK_PUSH_NOTIFICATION_CONFIGS@.len() == 31,
        METHOD_DELETE_TASK_PUSH_NOTIFICATION_CONFIG@.len() == 32,
        METHOD_GET_EXTENDED_AGENT_CARD@.len() == 20,
        METHOD_SEND_STREAMING_MESSAGE@[0] == 'S',
        METHOD_GET_EXTENDED_AGENT_CARD@[0] == 'G',
        METHOD_CREATE_TASK_PUSH_NOTIFICATION_CONFIG@[0] == 'C',
        METHOD_DELETE_TASK_PUSH_NOTIFICATION_CONFIG@[0] == 'D',
{
    reveal_strlit("SendMessage");
    reveal_strlit("SendStreamingMessage");
    reveal_strlit("GetTask");
    reveal_strlit("ListTasks");
    reveal_strlit("CancelTask");
    reveal_strlit("SubscribeToTask");
    reveal_strlit("CreateTaskPushNotificationConfig");
    reveal_strlit("GetTaskPushNotificationConfig");
    reveal_strlit("ListTaskPushNotificationConfigs");
    reveal_strlit("DeleteTaskPushNotificationConfig");
    reveal_strlit("GetExtendedAgentCard");
}

/// Every operation's own method name routes back to it, and only that name does.
pub proof fn lemma_route_round_trip(route: MethodRoute, method: Seq<char>)
    ensures
        route.method_name() matches Some(name) ==> spec_route(name) == route,
        spec_route(method) != MethodRoute::Unknown ==> spec_route(method).method_name() == Some(method),
{
    lemma_method_name_shapes();
    if METHOD_SEND_STREAMING_MESSAGE@ == METHOD_GET_EXTENDED_AGENT_CARD@ {
        assert(METHOD_SEND_STREAMING_MESSAGE@[0] == METHOD_GET_EXTENDED_AGENT_CARD@[0]);
    }
    if METHOD_CREATE_TASK_PUSH_NOTIFICATION_CONFIG@ == METHOD_DELETE_TASK_PUSH_NOTIFICATION_CONFIG@ {
        assert(METHOD_CREATE_TASK_PUSH_NOTIFICATION_CONFIG@[0] == METHOD_DELETE_TASK_PUSH_NOTIFICATION_CONFIG@[0]);
    }
}

/// A method name streams exactly when the operation it selects streams.
pub proof fn lemma_streaming_matches_route(method: Seq<char>)
    ensures
        (method == METHOD_SEND_STREAMING_MESSAGE@ || method == METHOD_SUBSCRIBE_TO_TASK@) <==> spec_route(method).streams(),
{
    lemma_method_name_shapes();
}

/// An empty JSON object (`Value::Object` of a new map).
/// Claimed: the value is an object with no string and no array members, and
/// its JSON text (serde_json's `Display`) is `{}`.
#[verifier::external_body]
fn empty_object() -> (v: serde_json::Value)
    ensures
        json_object_of(v) is Some,
        json_display_text(v) == "{}"@,
        forall|key: Seq<char>| #[trigger] json_text_member(v, key) is None,
        forall|key: Seq<char>| #[trigger] json_array_member(v, key) is None,
{
    serde_json::Value::Object(serde_json::Map::new())
}

/// The parameters a request hands to its operation: the request's own, or
/// an empty object when it has none.
pub fn request_params(raw_params: Option<serde_json::Value>) -> (r: serde_json::Value)
    ensures
        raw_params matches Some(v) ==> r == v,
        raw_params is None ==> json_object_of(r) is Some && json_display_text(r) == "{}"@
            && (forall|key: Seq<char>| #[trigger] json_text_member(r, key) is None)
            && (forall|key: Seq<char>| #[trigger] json_array_member(r, key) is None),
{
    match raw_params {
        Some(v) => v,
        None => empty_object(),
    }
}

/// The answer to a method name that selects no operation: a
/// method-not-found error naming it, with the request's id.
pub fn unknown_method_response(method: &str, id: serde_json::Value) -> (r: JsonRpcResponse)
    ensures
        r.well_formed(),
        r.spec_jsonrpc() == "2.0"@,
        r.spec_id() == id,
        r.outcome() matches Some(Err(e)) && e.code == crate::error::code::METHOD_NOT_FOUND
            && e.message@ == "unknown method: "@ + method@ && e.data is None,
{
    JsonRpcResponse::error(A2AError::method_not_found(method), id)
}

/// The answer to parameters that do not decode into the operation's type:
/// an invalid-params error carrying the decoder's message, with the request's id.
pub fn invalid_params_response(detail: &str, id: serde_json::Value) -> (r: JsonRpcResponse)
    ensures
        r.well_formed(),
        r.spec_jsonrpc() == "2.0"@,
        r.spec_id() == id,
        r.outcome() matches Some(Err(e)) && e.code == crate::error::code::INVALID_PARAMS
            && e.message@ == "invalid parameters"@ && e.data == Some(crate::json::json_string_value(detail@)),
{
    JsonRpcResponse::error(A2AError::invalid_params(detail), id)
}

/// The answer to a request-response operation, from what its handler gave:
/// the encoded result as success; a result that could not be encoded (its
/// message given) as an internal error; the handler's own error as is.
pub fn operation_response(
    outcome: Result<Result<serde_json::Value, String>, A2AError>,
    id: serde_json::Value,
) -> (r: JsonRpcResponse)
    ensures
        r.well_formed(),
        r.spec_jsonrpc() == "2.0"@,
        r.spec_id() == id,
        match outcome {
            Ok(Ok(value)) => r.outcome() == Some(Ok::<serde_json::Value, A2AError>(value)),
            Ok(Err(detail)) => r.outcome() matches Some(Err(e)) && e.code == crate::error::code::INTERNAL_ERROR
                && e.message@ == "internal error"@ && e.data == Some(crate::json::json_string_value(detail@)),
            Err(error) => r.outcome() == Some(Err::<serde_json::Value, A2AError>(error)),
        },
{
    match outcome {
        Ok(Ok(value)) => JsonRpcResponse::success(value, id),
        Ok(Err(detail)) => JsonRpcResponse::error(A2AError::internal_error(detail.as_str()), id),
        Err(error) => JsonRpcResponse::error(error, id),
    }
}

} // verus!
