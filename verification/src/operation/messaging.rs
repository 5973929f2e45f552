//! Parameters and result of `SendMessage` and `SendStreamingMessage`.

use vstd::prelude::*;

use crate::message::Message;
use crate::task::Task;

use super::push_notification::TaskPushNotificationConfig;

verus! {

/// Parameters for sending a message.
#[derive(Clone, PartialEq)]
pub struct SendMessageParams {
    /// The message to send.
    pub message: Message,
    /// How the agent should process it.
    pub configuration: Option<SendMessageConfiguration>,
    /// Caller-defined metadata.
    pub metadata: Option<serde_json::Map<String, serde_json::Value>>,
    /// Tenant scope.
    pub tenant: Option<String>,
}

/// How the agent should process a sent message.
#[derive(Clone, PartialEq)]
pub struct SendMessageConfiguration {
    /// Output media types the caller accepts.
    pub accepted_output_modes: Vec<String>,
    /// Whether to return at once rather than wait for completion.
    pub return_immediately: bool,
    /// How many history messages to include.
    pub history_length: Option<i32>,
    /// Where to push notifications for the resulting task.
    pub task_push_notification_config: Option<TaskPushNotificationConfig>,
}

/// The answer to a sent message: a task or a direct message.
#[derive(Clone, PartialEq)]
pub enum SendMessageResult {
    /// Deferred work, tracked as a task.
    Task(Task),
    /// An immediate reply.
    Message(Message),
}

impl SendMessageParams {
    /// Parameters holding only the message.
    pub fn new(message: Message) -> (r: SendMessageParams)
        ensures
            r.message == message && r.configuration is None && r.metadata is None && r.tenant is None,
    {
        SendMessageParams { message, configuration: None, metadata: None, tenant: None }
    }

    /// Sets the configuration; everything else is kept.
    pub fn with_configuration(self, configuration: SendMessageConfiguration) -> (r: SendMessageParams)
        ensures
            r == (SendMessageParams { configuration: Some(configuration), ..self }),
    {
        SendMessageParams { configuration: Some(configuration), ..self }
    }

    /// Sets the metadata; everything else is kept.
    pub fn with_metadata(self, metadata: serde_json::Map<String, serde_json::Value>) -> (r: SendMessageParams)
        ensures
            r == (SendMessageParams { metadata: Some(metadata), ..self }),
    {
        SendMessageParams { metadata: Some(metadata), ..self }
    }

    /// Sets the tenant; everything else is kept.
    pub fn with_tenant(self, tenant: &str) -> (r: SendMessageParams)
        ensures
            r.tenant matches Some(t) && t@ == tenant@,
            r == (SendMessageParams { tenant: r.tenant, ..self }),
    {
        SendMessageParams { tenant: Some(tenant.to_owned()), ..self }
    }
}

impl SendMessageConfiguration {
    /// An empty configuration: no modes, wait for completion, no limits.
    pub fn new() -> (r: SendMessageConfiguration)
        ensures
            r.accepted_output_modes@.len() == 0 && !r.return_immediately,
            r.history_length is None && r.task_push_notification_config is None,
    {
        SendMessageConfiguration {
            accepted_output_modes: Vec::new(),
            return_immediately: false,
            history_length: None,
            task_push_notification_config: None,
        }
    }

    /// Sets the accepted output modes; everything else is kept.
    pub fn with_accepted_output_modes(self, modes: Vec<String>) -> (r: SendMessageConfiguration)
        ensures
            r == (SendMessageConfiguration { accepted_output_modes: modes, ..self }),
    {
        SendMessageConfiguration { accepted_output_modes: modes, ..self }
    }

    /// Sets whether to return at once; everything else is kept.
    pub fn with_return_immediately(self, return_immediately: bool) -> (r: SendMessageConfiguration)
        ensures
            r == (SendMessageConfiguration { return_immediately, ..self }),
    {
        SendMessageConfiguration { return_immediately, ..self }
    }

    /// Sets the history length; everything else is kept.
    pub fn with_history_length(self, length: i32) -> (r: SendMessageConfiguration)
        ensures
            r == (SendMessageConfiguration { history_length: Some(length), ..self }),
    {
        SendMessageConfiguration { history_length: Some(length), ..self }
    }

    /// Sets the push notification configuration; everything else is kept.
    pub fn with_task_push_notification_config(self, config: TaskPushNotificationConfig) -> (r: SendMessageConfiguration)
        ensures
            r == (SendMessageConfiguration { task_push_notification_config: Some(config), ..self }),
    {
        SendMessageConfiguration { task_push_notification_config: Some(config), ..self }
    }
}

impl Default for SendMessageConfiguration {
    /// The same as `new`.
    fn default() -> (r: SendMessageConfiguration)
        ensures
            r.accepted_output_modes@.len() == 0 && !r.return_immediately,
            r.history_length is None && r.task_push_notification_config is None,
    {
        SendMessageConfiguration::new()
    }
}

} // verus!
