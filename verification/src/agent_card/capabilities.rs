//! What an agent can do: skills, protocol capabilities, interfaces, extensions.

use vstd::prelude::*;

use super::security::SecurityRequirement;

verus! {

/// Protocol features the agent supports; absent means not declared.
#[derive(Debug, Clone, PartialEq)]
pub struct AgentCapabilities {
    /// Whether SSE streaming is supported.
    pub streaming: Option<bool>,
    /// Whether webhook push notifications are supported.
    pub push_notifications: Option<bool>,
    /// Whether an extended card is available after authentication.
    pub extended_agent_card: Option<bool>,
    /// Protocol extensions the agent declares.
    pub extensions: Vec<AgentExtension>,
}

impl Default for AgentCapabilities {
    /// Nothing declared.
    fn default() -> (r: AgentCapabilities)
        ensures
            r.streaming is None && r.push_notifications is None && r.extended_agent_card is None,
            r.extensions@.len() == 0,
    {
        AgentCapabilities { streaming: None, push_notifications: None, extended_agent_card: None, extensions: Vec::new() }
    }
}

/// A discrete action the agent can perform.
#[derive(Debug, Clone, PartialEq)]
pub struct AgentSkill {
    /// Identifier, unique within the agent.
    pub id: String,
    /// Human-readable name.
    pub name: String,
    /// What the skill does.
    pub description: String,
    /// Keywords for discovery and routing.
    pub tags: Vec<String>,
    /// Example inputs.
    pub examples: Vec<String>,
    /// Accepted input media types.
    pub input_modes: Vec<String>,
    /// Produced output media types.
    pub output_modes: Vec<String>,
    /// Security requirements specific to this skill.
    pub security_requirements: Vec<SecurityRequirement>,
}

impl AgentSkill {
    /// A skill with its required fields; the optional lists empty.
    pub fn new(id: &str, name: &str, description: &str, tags: Vec<String>) -> (r: AgentSkill)
        ensures
            r.id@ == id@ && r.name@ == name@ && r.description@ == description@ && r.tags == tags,
            r.examples@.len() == 0 && r.input_modes@.len() == 0 && r.output_modes@.len() == 0,
            r.security_requirements@.len() == 0,
    {
        AgentSkill {
            id: id.to_owned(),
            name: name.to_owned(),
            description: description.to_owned(),
            tags,
            examples: Vec::new(),
            input_modes: Vec::new(),
            output_modes: Vec::new(),
            security_requirements: Vec::new(),
        }
    }

    /// Sets the examples; everything else is kept.
    pub fn with_examples(self, examples: Vec<String>) -> (r: AgentSkill)
        ensures
            r == (AgentSkill { examples, ..self }),
    {
        AgentSkill { examples, ..self }
    }

    /// Sets the input media types; everything else is kept.
    pub fn with_input_modes(self, input_modes: Vec<String>) -> (r: AgentSkill)
        ensures
            r == (AgentSkill { input_modes, ..self }),
    {
        AgentSkill { input_modes, ..self }
    }

    /// Sets the output media types; everything else is kept.
    pub fn with_output_modes(self, output_modes: Vec<String>) -> (r: AgentSkill)
        ensures
            r == (AgentSkill { output_modes, ..self }),
    {
        AgentSkill { output_modes, ..self }
    }

    /// Sets the skill's security requirements; everything else is kept.
    pub fn with_security_requirements(self, security_requirements: Vec<SecurityRequirement>) -> (r: AgentSkill)
        ensures
            r == (AgentSkill { security_requirements, ..self }),
    {
        AgentSkill { security_requirements, ..self }
    }
}

impl AgentCapabilities {
    /// Declares streaming support; everything else is kept.
    pub fn with_streaming(self, streaming: bool) -> (r: AgentCapabilities)
        ensures
            r == (AgentCapabilities { streaming: Some(streaming), ..self }),
    {
        AgentCapabilities { streaming: Some(streaming), ..self }
    }

    /// Declares push notification support; everything else is kept.
    pub fn with_push_notifications(self, push_notifications: bool) -> (r: AgentCapabilities)
        ensures
            r == (AgentCapabilities { push_notifications: Some(push_notifications), ..self }),
    {
        AgentCapabilities { push_notifications: Some(push_notifications), ..self }
    }

    /// Declares whether an extended card is available; everything else is kept.
    pub fn with_extended_agent_card(self, extended_agent_card: bool) -> (r: AgentCapabilities)
        ensures
            r == (AgentCapabilities { extended_agent_card: Some(extended_agent_card), ..self }),
    {
        AgentCapabilities { extended_agent_card: Some(extended_agent_card), ..self }
    }

    /// Sets the declared extensions; everything else is kept.
    pub fn with_extensions(self, extensions: Vec<AgentExtension>) -> (r: AgentCapabilities)
        ensures
            r == (AgentCapabilities { extensions, ..self }),
    {
        AgentCapabilities { extensions, ..self }
    }
}

/// A protocol binding the agent supports.
#[derive(Debug, Clone, PartialEq)]
pub struct AgentInterface {
    /// Endpoint URL.
    pub url: String,
    /// Protocol binding ("JSONRPC", "GRPC", ...).
    pub protocol_binding: String,
    /// Tenant the interface is scoped to.
    pub tenant: Option<String>,
    /// Protocol version.
    pub protocol_version: String,
}

/// A protocol extension the agent supports or requires.
#[derive(Debug, Clone, PartialEq)]
pub struct AgentExtension {
    /// URI identifying the extension.
    pub uri: String,
    /// What the extension provides.
    pub description: Option<String>,
    /// Whether callers must support it.
    pub required: Option<bool>,
    /// Extension parameters (a JSON object).
    pub params: Option<serde_json::Map<String, serde_json::Value>>,
}

impl AgentInterface {
    /// An interface with URL, binding and version; no tenant.
    pub fn new(url: &str, protocol_binding: &str, protocol_version: &str) -> (r: AgentInterface)
        ensures
            r.url@ == url@ && r.protocol_binding@ == protocol_binding@,
            r.protocol_version@ == protocol_version@ && r.tenant is None,
    {
        AgentInterface {
            url: url.to_owned(),
            protocol_binding: protocol_binding.to_owned(),
            tenant: None,
            protocol_version: protocol_version.to_owned(),
        }
    }

    /// Scopes the interface to a tenant; everything else is kept.
    pub fn with_tenant(self, tenant: &str) -> (r: AgentInterface)
        ensures
            r.tenant matches Some(t) && t@ == tenant@,
            r == (AgentInterface { tenant: r.tenant, ..self }),
    {
        AgentInterface { tenant: Some(tenant.to_owned()), ..self }
    }
}

impl AgentExtension {
    /// An extension with its URI; no description, requirement flag or params.
    pub fn new(uri: &str) -> (r: AgentExtension)
        ensures
            r.uri@ == uri@ && r.description is None && r.required is None && r.params is None,
    {
        AgentExtension { uri: uri.to_owned(), description: None, required: None, params: None }
    }

    /// Sets the description; everything else is kept.
    pub fn with_description(self, description: &str) -> (r: AgentExtension)
        ensures
            r.description matches Some(d) && d@ == description@,
            r == (AgentExtension { description: r.description, ..self }),
    {
        AgentExtension { description: Some(description.to_owned()), ..self }
    }

    /// Sets whether callers must support the extension; everything else is kept.
    pub fn with_required(self, required: bool) -> (r: AgentExtension)
        ensures
            r == (AgentExtension { required: Some(required), ..self }),
    {
        AgentExtension { required: Some(required), ..self }
    }

    /// Sets the parameters; everything else is kept.
    pub fn with_params(self, params: serde_json::Map<String, serde_json::Value>) -> (r: AgentExtension)
        ensures
            r == (AgentExtension { params: Some(params), ..self }),
    {
        AgentExtension { params: Some(params), ..self }
    }
}

} // verus!
