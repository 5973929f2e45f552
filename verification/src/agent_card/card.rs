//! The agent card, its provider and its signatures.

use std::collections::HashMap;

use vstd::prelude::*;

use super::capabilities::{AgentCapabilities, AgentInterface, AgentSkill};
use super::security::{SecurityRequirement, SecurityScheme};

verus! {

/// The agent discovery card.
#[derive(Debug, Clone, PartialEq)]
pub struct AgentCard {
    /// Human-readable name.
    pub name: String,
    /// What the agent does.
    pub description: String,
    /// Supported interfaces, the preferred one first.
    pub supported_interfaces: Vec<AgentInterface>,
    /// Card schema version.
    pub version: String,
    /// Protocol features.
    pub capabilities: AgentCapabilities,
    /// The agent's skills.
    pub skills: Vec<AgentSkill>,
    /// Default accepted input media types.
    pub default_input_modes: Vec<String>,
    /// Default produced output media types.
    pub default_output_modes: Vec<String>,
    /// Who operates the agent.
    pub provider: Option<AgentProvider>,
    /// Named security schemes.
    pub security_schemes: HashMap<String, SecurityScheme>,
    /// Security requirements for all operations.
    pub security_requirements: Vec<SecurityRequirement>,
    /// Documentation URL.
    pub documentation_url: Option<String>,
    /// Icon URL.
    pub icon_url: Option<String>,
    /// JWS signatures over the card.
    pub signatures: Vec<AgentCardSignature>,
}

/// A detached JWS signature of an agent card.
#[derive(Debug, Clone, PartialEq)]
pub struct AgentCardSignature {
    /// The protected header, base64url-encoded JSON.
    pub protected: String,
    /// The signature, base64url-encoded.
    pub signature: String,
    /// The unprotected header (a JSON object).
    pub header: Option<serde_json::Map<String, serde_json::Value>>,
}

/// The organisation or person operating an agent.
#[derive(Debug, Clone, PartialEq)]
pub struct AgentProvider {
    /// Organisation name.
    pub organization: String,
    /// Website or contact URL.
    pub url: String,
}

impl AgentProvider {
    /// A provider with both required fields.
    pub fn new(organization: &str, url: &str) -> (r: AgentProvider)
        ensures
            r.organization@ == organization@ && r.url@ == url@,
    {
        AgentProvider { organization: organization.to_owned(), url: url.to_owned() }
    }
}

impl AgentCardSignature {
    /// A signature without unprotected header.
    pub fn new(protected: &str, signature: &str) -> (r: AgentCardSignature)
        ensures
            r.protected@ == protected@ && r.signature@ == signature@ && r.header is None,
    {
        AgentCardSignature { protected: protected.to_owned(), signature: signature.to_owned(), header: None }
    }

    /// Sets the unprotected header; everything else is kept.
    pub fn with_header(self, header: serde_json::Map<String, serde_json::Value>) -> (r: AgentCardSignature)
        ensures
            r == (AgentCardSignature { header: Some(header), ..self }),
    {
        AgentCardSignature { header: Some(header), ..self }
    }
}

/// The required fields of an agent card.
#[derive(Debug, Clone, PartialEq)]
pub struct AgentCardRequired {
    /// Human-readable name.
    pub name: String,
    /// What the agent does.
    pub description: String,
    /// Supported interfaces, the preferred one first.
    pub supported_interfaces: Vec<AgentInterface>,
    /// Card schema version.
    pub version: String,
    /// Protocol features.
    pub capabilities: AgentCapabilities,
    /// The agent's skills.
    pub skills: Vec<AgentSkill>,
    /// Default accepted input media types.
    pub default_input_modes: Vec<String>,
    /// Default produced output media types.
    pub default_output_modes: Vec<String>,
}

impl AgentCard {
    /// A card from its required fields; every optional field empty.
    pub fn new(required: AgentCardRequired) -> (r: AgentCard)
        ensures
            r.name == required.name && r.description == required.description,
            r.supported_interfaces == required.supported_interfaces && r.version == required.version,
            r.capabilities == required.capabilities && r.skills == required.skills,
            r.default_input_modes == required.default_input_modes,
            r.default_output_modes == required.default_output_modes,
            r.provider is None && r.security_schemes@.len() == 0 && r.security_requirements@.len() == 0,
            r.documentation_url is None && r.icon_url is None && r.signatures@.len() == 0,
    {
        AgentCard {
            name: required.name,
            description: required.description,
            supported_interfaces: required.supported_interfaces,
            version: required.version,
            capabilities: required.capabilities,
            skills: required.skills,
            default_input_modes: required.default_input_modes,
            default_output_modes: required.default_output_modes,
            provider: None,
            security_schemes: HashMap::new(),
            security_requirements: Vec::new(),
            documentation_url: None,
            icon_url: None,
            signatures: Vec::new(),
        }
    }

    /// Sets the provider; everything else is kept.
    pub fn with_provider(self, provider: AgentProvider) -> (r: AgentCard)
        ensures
            r == (AgentCard { provider: Some(provider), ..self }),
    {
        AgentCard { provider: Some(provider), ..self }
    }

    /// Sets the security schemes; everything else is kept.
    pub fn with_security_schemes(self, schemes: HashMap<String, SecurityScheme>) -> (r: AgentCard)
        ensures
            r == (AgentCard { security_schemes: schemes, ..self }),
    {
        AgentCard { security_schemes: schemes, ..self }
    }

    /// Sets the security requirements; everything else is kept.
    pub fn with_security_requirements(self, security_requirements: Vec<SecurityRequirement>) -> (r: AgentCard)
        ensures
            r == (AgentCard { security_requirements, ..self }),
    {
        AgentCard { security_requirements, ..self }
    }

    /// Sets the documentation URL; everything else is kept.
    pub fn with_documentation_url(self, url: &str) -> (r: AgentCard)
        ensures
            r.documentation_url matches Some(u) && u@ == url@,
            r == (AgentCard { documentation_url: r.documentation_url, ..self }),
    {
        AgentCard { documentation_url: Some(url.to_owned()), ..self }
    }

    /// Sets the icon URL; everything else is kept.
    pub fn with_icon_url(self, url: &str) -> (r: AgentCard)
        ensures
            r.icon_url matches Some(u) && u@ == url@,
            r == (AgentCard { icon_url: r.icon_url, ..self }),
    {
        AgentCard { icon_url: Some(url.to_owned()), ..self }
    }

    /// Sets the signatures; everything else is kept.
    pub fn with_signatures(self, signatures: Vec<AgentCardSignature>) -> (r: AgentCard)
        ensures
            r == (AgentCard { signatures, ..self }),
    {
        AgentCard { signatures, ..self }
    }
}

} // verus!
