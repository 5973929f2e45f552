use std::collections::HashMap;

use a2a::agent_card::{
    AgentCapabilities, AgentCard, AgentCardRequired, AgentCardSignature, AgentExtension, AgentInterface,
    AgentProvider, AgentSkill, AuthorizationCodeOAuthFlow, ClientCredentialsOAuthFlow, DeviceCodeOAuthFlow,
    OAuthFlows, SecurityRequirement, SecurityScheme, StringList,
};

fn minimal_card() -> AgentCard {
    AgentCard {
        name: "Test Agent".into(),
        description: "A test agent for unit tests".into(),
        supported_interfaces: vec![AgentInterface {
            url: "https://agent.example.com/a2a".into(),
            protocol_binding: "JSONRPC".into(),
            tenant: None,
            protocol_version: "1.0".into(),
        }],
        version: "1.0".into(),
        capabilities: AgentCapabilities {
            streaming: None,
            push_notifications: None,
            extended_agent_card: None,
            extensions: vec![],
        },
        skills: vec![],
        default_input_modes: vec!["text/plain".into()],
        default_output_modes: vec!["text/plain".into()],
        provider: None,
        security_schemes: HashMap::new(),
        security_requirements: Vec::new(),
        documentation_url: None,
        icon_url: None,
        signatures: Vec::new(),
    }
}

#[test]
fn tests_interface_new_sets_required_fields() {
    let iface = AgentInterface::new("https://example.com/a2a", "JSONRPC", "1.0");
    assert_eq!(iface.url, "https://example.com/a2a");
    assert_eq!(iface.protocol_binding, "JSONRPC");
    assert_eq!(iface.protocol_version, "1.0");
    assert!(iface.tenant.is_none());
}

#[test]
fn tests_interface_new_matches_struct_literal() {
    let from_constructor = AgentInterface::new("https://example.com/grpc", "GRPC", "1.0");
    let from_literal = AgentInterface {
        url: "https://example.com/grpc".into(),
        protocol_binding: "GRPC".into(),
        tenant: None,
        protocol_version: "1.0".into(),
    };
    assert_eq!(from_constructor, from_literal);
}

#[test]
fn tests_oauth2_metadata_url_noop_on_non_oauth2() {
    let scheme = SecurityScheme::http("bearer").with_oauth2_metadata_url(
        "https://auth.example.com/.well-known/oauth-authorization-server",
    );
    match &scheme {
        SecurityScheme::Http { bearer_format, description, .. } => {
            assert!(bearer_format.is_none());
            assert!(description.is_none());
        }
        _ => panic!("expected Http variant"),
    }
}

#[test]
fn tests_new_from_required_fields_matches_minimal_card() {
    let from_builder = AgentCard::new(AgentCardRequired {
        name: "Test Agent".into(),
        description: "A test agent for unit tests".into(),
        supported_interfaces: vec![AgentInterface::new("https://agent.example.com/a2a", "JSONRPC", "1.0")],
        version: "1.0".into(),
        capabilities: AgentCapabilities::default(),
        skills: vec![],
        default_input_modes: vec!["text/plain".into()],
        default_output_modes: vec!["text/plain".into()],
    });
    let from_literal = minimal_card();
    assert_eq!(from_builder, from_literal);
}

#[test]
fn tests_card_setters_populate_optional_fields() {
    let card = AgentCard::new(AgentCardRequired {
        name: "Settable Agent".into(),
        description: "Tests all optional setters".into(),
        supported_interfaces: vec![AgentInterface::new("https://agent.example.com/a2a", "JSONRPC", "1.0")],
        version: "1.0".into(),
        capabilities: AgentCapabilities::default(),
        skills: vec![],
        default_input_modes: vec!["text/plain".into()],
        default_output_modes: vec!["text/plain".into()],
    })
    .with_provider(AgentProvider { organization: "Arai".into(), url: "https://arai.dev".into() })
    .with_documentation_url("https://docs.example.com")
    .with_icon_url("https://example.com/icon.png");

    assert_eq!(card.provider.as_ref().unwrap().organization, "Arai");
    assert_eq!(card.documentation_url.as_deref(), Some("https://docs.example.com"));
    assert_eq!(card.icon_url.as_deref(), Some("https://example.com/icon.png"));
    assert!(card.security_schemes.is_empty());
    assert!(card.security_requirements.is_empty());
    assert!(card.signatures.is_empty());
}

#[test]
fn tests_skill_new_sets_required_fields_and_defaults() {
    let skill = AgentSkill::new(
        "web-search",
        "Web Search",
        "Searches the web and returns summarised results",
        vec!["search".into(), "web".into()],
    );
    assert_eq!(skill.id, "web-search");
    assert_eq!(skill.name, "Web Search");
    assert_eq!(skill.description, "Searches the web and returns summarised results");
    assert_eq!(skill.tags, vec!["search", "web"]);
    assert!(skill.examples.is_empty());
    assert!(skill.input_modes.is_empty());
    assert!(skill.output_modes.is_empty());
    assert!(skill.security_requirements.is_empty());
}

#[test]
fn tests_skill_builder_matches_struct_literal() {
    let from_builder = AgentSkill::new("echo", "Echo", "Echoes input back", vec!["echo".into()])
        .with_examples(vec!["say hello".into()]);
    let from_literal = AgentSkill {
        id: "echo".into(),
        name: "Echo".into(),
        description: "Echoes input back".into(),
        tags: vec!["echo".into()],
        examples: vec!["say hello".into()],
        input_modes: vec![],
        output_modes: vec![],
        security_requirements: vec![],
    };
    assert_eq!(from_builder, from_literal);
}

#[test]
fn tests_provider_new_sets_required_fields() {
    let provider = AgentProvider::new("Arai", "https://arai.dev");
    assert_eq!(provider.organization, "Arai");
    assert_eq!(provider.url, "https://arai.dev");
}

#[test]
fn tests_provider_new_matches_struct_literal() {
    let from_constructor = AgentProvider::new("Arai", "https://arai.dev");
    let from_literal = AgentProvider { organization: "Arai".into(), url: "https://arai.dev".into() };
    assert_eq!(from_constructor, from_literal);
}

#[test]
fn tests_signature_new_sets_required_fields() {
    let sig = AgentCardSignature::new("eyJhbGciOiJFZERTQSJ9", "abc123signature");
    assert_eq!(sig.protected, "eyJhbGciOiJFZERTQSJ9");
    assert_eq!(sig.signature, "abc123signature");
    assert!(sig.header.is_none());
}

#[test]
fn tests_signature_with_header() {
    let mut header = serde_json::Map::new();
    header.insert("kid".to_string(), serde_json::Value::String("key-1".to_string()));
    let sig = AgentCardSignature::new("eyJhbGciOiJFZERTQSJ9", "abc123signature").with_header(header);
    assert_eq!(sig.header.as_ref().unwrap()["kid"], "key-1");
}

#[test]
fn tests_signature_new_matches_struct_literal() {
    let from_constructor = AgentCardSignature::new("eyJhbGciOiJFZERTQSJ9", "sig");
    let from_literal = AgentCardSignature {
        protected: "eyJhbGciOiJFZERTQSJ9".into(),
        signature: "sig".into(),
        header: None,
    };
    assert_eq!(from_constructor, from_literal);
}

#[test]
fn tests_capabilities_with_streaming() {
    let caps = AgentCapabilities::default().with_streaming(true);
    assert_eq!(caps.streaming, Some(true));
    assert!(caps.push_notifications.is_none());
    assert!(caps.extended_agent_card.is_none());
    assert!(caps.extensions.is_empty());
}

#[test]
fn tests_capabilities_chained_setters() {
    let caps = AgentCapabilities::default()
        .with_streaming(true)
        .with_push_notifications(true)
        .with_extended_agent_card(true);
    assert_eq!(caps.streaming, Some(true));
    assert_eq!(caps.push_notifications, Some(true));
    assert_eq!(caps.extended_agent_card, Some(true));
}

#[test]
fn tests_capabilities_setters_match_struct_literal() {
    let from_setters = AgentCapabilities::default().with_streaming(true).with_push_notifications(false);
    let from_literal = AgentCapabilities {
        streaming: Some(true),
        push_notifications: Some(false),
        extended_agent_card: None,
        extensions: vec![],
    };
    assert_eq!(from_setters, from_literal);
}

#[test]
fn tests_extension_new_sets_uri() {
    let ext = AgentExtension::new("urn:example:ext");
    assert_eq!(ext.uri, "urn:example:ext");
    assert!(ext.description.is_none());
    assert!(ext.required.is_none());
    assert!(ext.params.is_none());
}

#[test]
fn tests_extension_chained_setters() {
    let mut params = serde_json::Map::new();
    params.insert("version".to_string(), serde_json::Value::String("2.0".to_string()));
    let ext = AgentExtension::new("urn:example:ext")
        .with_description("Custom extension for testing")
        .with_required(true)
        .with_params(params);
    assert_eq!(ext.description.as_deref(), Some("Custom extension for testing"));
    assert_eq!(ext.required, Some(true));
    assert_eq!(ext.params.as_ref().unwrap()["version"], "2.0");
}

#[test]
fn tests_extension_new_matches_struct_literal() {
    let from_constructor = AgentExtension::new("urn:example:ext");
    let from_literal = AgentExtension {
        uri: "urn:example:ext".into(),
        description: None,
        required: None,
        params: None,
    };
    assert_eq!(from_constructor, from_literal);
}

#[test]
fn tests_security_scheme_api_key_constructor() {
    let scheme = SecurityScheme::api_key("X-API-Key", "header");
    match &scheme {
        SecurityScheme::ApiKey { name, location, description } => {
            assert_eq!(name, "X-API-Key");
            assert_eq!(location, "header");
            assert!(description.is_none());
        }
        _ => panic!("expected ApiKey variant"),
    }
}

#[test]
fn tests_security_scheme_http_constructor() {
    let scheme = SecurityScheme::http("bearer");
    match &scheme {
        SecurityScheme::Http { scheme: http_scheme, bearer_format, description } => {
            assert_eq!(http_scheme, "bearer");
            assert!(bearer_format.is_none());
            assert!(description.is_none());
        }
        _ => panic!("expected Http variant"),
    }
}

#[test]
fn tests_security_scheme_http_with_bearer_format() {
    let scheme = SecurityScheme::http("bearer").with_bearer_format("JWT");
    match &scheme {
        SecurityScheme::Http { bearer_format, .. } => {
            assert_eq!(bearer_format.as_deref(), Some("JWT"));
        }
        _ => panic!("expected Http variant"),
    }
}

#[test]
fn tests_security_scheme_oauth2_constructor() {
    let flows = OAuthFlows::default().with_client_credentials(ClientCredentialsOAuthFlow::new(
        "https://auth.example.com/token",
        HashMap::from([("read".into(), "read access".into())]),
    ));
    let scheme = SecurityScheme::oauth2(flows);
    match &scheme {
        SecurityScheme::OAuth2 { flows, description, oauth2_metadata_url } => {
            assert!(flows.client_credentials.is_some());
            assert!(description.is_none());
            assert!(oauth2_metadata_url.is_none());
        }
        _ => panic!("expected OAuth2 variant"),
    }
}

#[test]
fn tests_security_scheme_openid_connect_constructor() {
    let scheme = SecurityScheme::openid_connect("https://auth.example.com/.well-known/openid-configuration");
    match &scheme {
        SecurityScheme::OpenIdConnect { open_id_connect_url, description } => {
            assert_eq!(open_id_connect_url, "https://auth.example.com/.well-known/openid-configuration");
            assert!(description.is_none());
        }
        _ => panic!("expected OpenIdConnect variant"),
    }
}

#[test]
fn tests_security_scheme_mutual_tls_constructor() {
    let scheme = SecurityScheme::mutual_tls();
    match &scheme {
        SecurityScheme::MutualTls { description } => {
            assert!(description.is_none());
        }
        _ => panic!("expected MutualTls variant"),
    }
}

#[test]
fn tests_security_scheme_with_description_all_variants() {
    let desc = "Test description";

    let scheme = SecurityScheme::api_key("key", "header").with_description(desc);
    match &scheme {
        SecurityScheme::ApiKey { description, .. } => {
            assert_eq!(description.as_deref(), Some(desc));
        }
        _ => panic!("expected ApiKey variant"),
    }

    let scheme = SecurityScheme::http("bearer").with_description(desc);
    match &scheme {
        SecurityScheme::Http { description, .. } => {
            assert_eq!(description.as_deref(), Some(desc));
        }
        _ => panic!("expected Http variant"),
    }

    let scheme = SecurityScheme::mutual_tls().with_description(desc);
    match &scheme {
        SecurityScheme::MutualTls { description } => {
            assert_eq!(description.as_deref(), Some(desc));
        }
        _ => panic!("expected MutualTls variant"),
    }
}

#[test]
fn tests_security_scheme_constructors_match_struct_literals() {
    let from_constructor = SecurityScheme::api_key("X-API-Key", "header");
    let from_literal = SecurityScheme::ApiKey {
        name: "X-API-Key".into(),
        location: "header".into(),
        description: None,
    };
    assert_eq!(from_constructor, from_literal);

    let from_constructor = SecurityScheme::http("bearer").with_bearer_format("JWT");
    let from_literal = SecurityScheme::Http {
        scheme: "bearer".into(),
        bearer_format: Some("JWT".into()),
        description: None,
    };
    assert_eq!(from_constructor, from_literal);
}

#[test]
fn tests_oauth_flows_default_is_empty() {
    let flows = OAuthFlows::default();
    assert!(flows.authorization_code.is_none());
    assert!(flows.client_credentials.is_none());
    assert!(flows.device_code.is_none());
}

#[test]
fn tests_oauth_flows_chained_setters() {
    let flows = OAuthFlows::default()
        .with_client_credentials(ClientCredentialsOAuthFlow::new("https://auth.example.com/token", HashMap::new()))
        .with_authorization_code(AuthorizationCodeOAuthFlow::new(
            "https://auth.example.com/authorize",
            "https://auth.example.com/token",
            HashMap::new(),
        ));
    assert!(flows.client_credentials.is_some());
    assert!(flows.authorization_code.is_some());
    assert!(flows.device_code.is_none());
}

#[test]
fn tests_auth_code_flow_new_sets_required_fields() {
    let flow = AuthorizationCodeOAuthFlow::new(
        "https://auth.example.com/authorize",
        "https://auth.example.com/token",
        HashMap::from([("read".into(), "read access".into())]),
    );
    assert_eq!(flow.authorization_url, "https://auth.example.com/authorize");
    assert_eq!(flow.token_url, "https://auth.example.com/token");
    assert!(flow.refresh_url.is_none());
    assert!(flow.pkce_required.is_none());
    assert_eq!(flow.scopes["read"], "read access");
}

#[test]
fn tests_auth_code_flow_with_refresh_url() {
    let flow = AuthorizationCodeOAuthFlow::new(
        "https://auth.example.com/authorize",
        "https://auth.example.com/token",
        HashMap::new(),
    )
    .with_refresh_url("https://auth.example.com/refresh");
    assert_eq!(flow.refresh_url.as_deref(), Some("https://auth.example.com/refresh"));
}

#[test]
fn tests_client_credentials_flow_new_sets_required_fields() {
    let flow = ClientCredentialsOAuthFlow::new(
        "https://auth.example.com/token",
        HashMap::from([("admin".into(), "admin access".into())]),
    );
    assert_eq!(flow.token_url, "https://auth.example.com/token");
    assert_eq!(flow.scopes["admin"], "admin access");
    assert!(flow.refresh_url.is_none());
}

#[test]
fn tests_device_code_flow_new_sets_required_fields() {
    let flow = DeviceCodeOAuthFlow::new(
        "https://auth.example.com/device",
        "https://auth.example.com/token",
        HashMap::new(),
    );
    assert_eq!(flow.device_authorization_url, "https://auth.example.com/device");
    assert_eq!(flow.token_url, "https://auth.example.com/token");
    assert!(flow.refresh_url.is_none());
}

#[test]
fn tests_oauth_flows_with_refresh_url() {
    let flow = ClientCredentialsOAuthFlow::new("https://auth.example.com/token", HashMap::new())
        .with_refresh_url("https://auth.example.com/refresh");
    assert_eq!(flow.refresh_url.as_deref(), Some("https://auth.example.com/refresh"));

    let flow = DeviceCodeOAuthFlow::new(
        "https://auth.example.com/device",
        "https://auth.example.com/token",
        HashMap::new(),
    )
    .with_refresh_url("https://auth.example.com/refresh");
    assert_eq!(flow.refresh_url.as_deref(), Some("https://auth.example.com/refresh"));
}

#[test]
fn tests_string_list_new_matches_literal() {
    let from_constructor = StringList::new(vec!["read".into(), "write".into()]);
    let from_literal = StringList { list: vec!["read".into(), "write".into()] };
    assert_eq!(from_constructor, from_literal);
}

#[test]
fn tests_security_requirement_from_scheme_sets_name_and_scopes() {
    let requirement = SecurityRequirement::from_scheme("oauth2", &["read", "write"]);
    assert!(
        requirement.schemes.contains_key("oauth2"),
        "from_scheme must insert the given scheme name as a key"
    );
    assert_eq!(
        requirement.schemes["oauth2"].list,
        vec!["read".to_string(), "write".to_string()],
        "from_scheme must convert the scope slice to owned strings"
    );
}

#[test]
fn tests_security_requirement_from_scheme_matches_new() {
    let from_scheme = SecurityRequirement::from_scheme("bearer-jwt", &["tasks:read"]);
    let from_new = SecurityRequirement::new(HashMap::from([(
        "bearer-jwt".into(),
        StringList::new(vec!["tasks:read".into()]),
    )]));
    assert_eq!(from_scheme, from_new, "from_scheme and new() must produce identical output");
}

#[test]
fn tests_skill_setters_populate_optional_fields() {
    let skill = AgentSkill::new(
        "document-analysis",
        "Document Analysis",
        "Analyses documents and extracts structured data",
        vec!["documents".into(), "analysis".into()],
    )
    .with_examples(vec![
        "analyse this PDF for compliance issues".into(),
        "extract contact information from this document".into(),
    ])
    .with_input_modes(vec!["application/pdf".into(), "text/plain".into()])
    .with_output_modes(vec!["application/json".into()]);

    assert_eq!(skill.examples.len(), 2);
    assert_eq!(skill.input_modes, &["application/pdf", "text/plain"]);
    assert_eq!(skill.output_modes, &["application/json"]);
    assert!(skill.security_requirements.is_empty());
}

#[test]
fn tests_skill_with_security_requirements() {
    let req = SecurityRequirement::new(HashMap::from([("bearer-jwt".into(), StringList::new(vec!["read".into()]))]));
    let skill = AgentSkill::new("secure-op", "Secure Op", "Needs auth", vec![]).with_security_requirements(vec![req]);

    assert!(!skill.security_requirements.is_empty());
    assert_eq!(skill.security_requirements[0].schemes["bearer-jwt"].list, vec!["read".to_string()]);
}

#[test]
fn tests_capabilities_with_extensions() {
    let ext = AgentExtension::new("urn:example:custom-extension");
    let caps = AgentCapabilities::default().with_extensions(vec![ext]);
    assert_eq!(caps.extensions.len(), 1);
    assert_eq!(caps.extensions[0].uri, "urn:example:custom-extension");
}

#[test]
fn tests_auth_code_flow_with_pkce_required() {
    let flow = AuthorizationCodeOAuthFlow::new(
        "https://auth.example.com/authorize",
        "https://auth.example.com/token",
        HashMap::new(),
    )
    .with_pkce_required(true);

    assert_eq!(flow.pkce_required, Some(true));

    let flow_no_pkce = AuthorizationCodeOAuthFlow::new(
        "https://auth.example.com/authorize",
        "https://auth.example.com/token",
        HashMap::new(),
    );
    assert!(flow_no_pkce.pkce_required.is_none());
}

#[test]
fn tests_device_code_flow_with_refresh_url() {
    let flow = DeviceCodeOAuthFlow::new("https://auth.example.com/device", "https://auth.example.com/token", HashMap::new())
        .with_refresh_url("https://auth.example.com/refresh");
    assert_eq!(flow.refresh_url.as_deref(), Some("https://auth.example.com/refresh"));
}

#[test]
fn tests_security_requirement_from_scheme_empty_scopes() {
    let requirement = SecurityRequirement::from_scheme("api-key", &[]);

    assert!(requirement.schemes.contains_key("api-key"));
    assert!(
        requirement.schemes["api-key"].list.is_empty(),
        "empty scope slice must produce an empty list, not be absent"
    );
}

#[test]
fn tests_oauth2_metadata_url_is_set_only_when_given() {
    let scheme = SecurityScheme::oauth2(OAuthFlows::default())
        .with_oauth2_metadata_url("https://auth.example.com/.well-known/oauth-authorization-server");
    match &scheme {
        SecurityScheme::OAuth2 { oauth2_metadata_url, .. } => assert_eq!(
            oauth2_metadata_url.as_deref(),
            Some("https://auth.example.com/.well-known/oauth-authorization-server")
        ),
        _ => panic!("expected an OAuth2 scheme"),
    }
    match SecurityScheme::oauth2(OAuthFlows::default()) {
        SecurityScheme::OAuth2 { oauth2_metadata_url, .. } => assert!(oauth2_metadata_url.is_none()),
        _ => panic!("expected an OAuth2 scheme"),
    }
}
