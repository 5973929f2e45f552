//! Agent discovery: the agent card with its skills, interfaces, capabilities
//! and security schemes.

pub mod capabilities;
pub mod card;
pub mod security;

pub use capabilities::{AgentCapabilities, AgentExtension, AgentInterface, AgentSkill};
pub use card::{AgentCard, AgentCardRequired, AgentCardSignature, AgentProvider};
pub use security::{
    AuthorizationCodeOAuthFlow, ClientCredentialsOAuthFlow, DeviceCodeOAuthFlow, ImplicitOAuthFlow,
    OAuthFlows, PasswordOAuthFlow, SecurityRequirement, SecurityScheme, StringList,
};
