//! Agent-to-Agent (A2A) protocol types and logic, specified and proved with Verus.

pub mod agent_card;
pub mod artifact;
pub mod canonical_json;
pub mod codec;
pub mod error;
pub mod json;
pub mod jws;
pub mod jsonrpc;
pub mod message;
pub mod operation;
pub mod part;
pub mod role;
pub mod serde_helpers;
pub mod server;
pub mod stream_event;
pub mod task;
pub mod task_state;
pub mod text;
pub mod timestamp;

pub use agent_card::{
    AgentCapabilities, AgentCard, AgentCardRequired, AgentCardSignature, AgentExtension, AgentInterface,
    AgentProvider, AgentSkill, AuthorizationCodeOAuthFlow, ClientCredentialsOAuthFlow, DeviceCodeOAuthFlow,
    ImplicitOAuthFlow, OAuthFlows, PasswordOAuthFlow, SecurityRequirement, SecurityScheme, StringList,
};
pub use artifact::Artifact;
pub use error::A2AError;
pub use jsonrpc::{JsonRpcRequest, JsonRpcResponse};
pub use message::Message;
pub use operation::{
    AuthenticationInfo, CancelTaskParams, DeleteTaskPushNotificationConfigParams, GetExtendedAgentCardParams,
    GetTaskParams, GetTaskPushNotificationConfigParams, ListTaskPushNotificationConfigsParams,
    ListTaskPushNotificationConfigsResponse, ListTasksParams, ListTasksResponse, SendMessageConfiguration,
    SendMessageParams, SendMessageResult, SubscribeToTaskParams, TaskPushNotificationConfig,
};
pub use part::{Part, PartContent};
pub use role::Role;
pub use stream_event::{StreamResponse, TaskArtifactUpdateEvent, TaskStatusUpdateEvent};
pub use task::{Task, TaskStatus};
pub use task_state::TaskState;
pub use time::OffsetDateTime;
