//! Typed parameters and results of the protocol's JSON-RPC methods, and the
//! method name table.

pub mod discovery;
pub mod messaging;
pub mod push_notification;
pub mod task_management;

pub use discovery::GetExtendedAgentCardParams;
pub use messaging::{SendMessageConfiguration, SendMessageParams, SendMessageResult};
pub use push_notification::{
    AuthenticationInfo, DeleteTaskPushNotificationConfigParams, GetTaskPushNotificationConfigParams,
    ListTaskPushNotificationConfigsParams, ListTaskPushNotificationConfigsResponse,
    TaskPushNotificationConfig,
};
pub use task_management::{
    CancelTaskParams, GetTaskParams, ListTasksParams, ListTasksResponse, SubscribeToTaskParams,
};

use vstd::prelude::*;

verus! {

/// Send a message; the agent answers with a task or a message.
pub const METHOD_SEND_MESSAGE: &'static str = "SendMessage";

/// Send a message and stream the agent's events.
pub const METHOD_SEND_STREAMING_MESSAGE: &'static str = "SendStreamingMessage";

/// Fetch a task by id.
pub const METHOD_GET_TASK: &'static str = "GetTask";

/// List tasks with filters.
pub const METHOD_LIST_TASKS: &'static str = "ListTasks";

/// Cancel a running task.
pub const METHOD_CANCEL_TASK: &'static str = "CancelTask";

/// Re-subscribe to a task's event stream.
pub const METHOD_SUBSCRIBE_TO_TASK: &'static str = "SubscribeToTask";

/// Create or update a task's push notification configuration.
pub const METHOD_CREATE_TASK_PUSH_NOTIFICATION_CONFIG: &'static str = "CreateTaskPushNotificationConfig";

/// Fetch a task's push notification configuration.
pub const METHOD_GET_TASK_PUSH_NOTIFICATION_CONFIG: &'static str = "GetTaskPushNotificationConfig";

/// List a task's push notification configurations.
pub const METHOD_LIST_TASK_PUSH_NOTIFICATION_CONFIGS: &'static str = "ListTaskPushNotificationConfigs";

/// Delete a task's push notification configuration.
pub const METHOD_DELETE_TASK_PUSH_NOTIFICATION_CONFIG: &'static str = "DeleteTaskPushNotificationConfig";

/// Fetch the agent's extended card.
pub const METHOD_GET_EXTENDED_AGENT_CARD: &'static str = "GetExtendedAgentCard";

} // verus!
