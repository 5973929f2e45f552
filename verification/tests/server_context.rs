use a2a::server::context::{ApiKey, BearerToken, CorrelationId, Extensions, RequestContext};

#[test]
fn insert_returns_previous_value() {
    let mut ext = Extensions::new();

    let prev = ext.insert(BearerToken("token-v1".into()));
    assert!(prev.is_none(), "first insert must return None because no prior value exists");

    let prev = ext.insert(BearerToken("token-v2".into()));
    assert!(prev.is_some(), "second insert must return the displaced value");
    assert_eq!(prev.unwrap().0, "token-v1", "the displaced value must be the first token, not the replacement");
}

#[test]
fn get_retrieves_inserted_value() {
    let mut ext = Extensions::new();
    ext.insert(ApiKey("key-abc".into()));

    let key = ext.get::<ApiKey>();
    assert!(key.is_some(), "ApiKey must be retrievable after insertion");
    assert_eq!(key.unwrap().0, "key-abc", "retrieved ApiKey must match the inserted value");

    let missing = ext.get::<BearerToken>();
    assert!(missing.is_none(), "BearerToken was not inserted so get must return None");
}

#[test]
fn contains_reflects_insertion_state() {
    let mut ext = Extensions::new();

    assert!(!ext.contains::<CorrelationId>(), "empty map must not contain CorrelationId");

    ext.insert(CorrelationId("trace-001".into()));

    assert!(ext.contains::<CorrelationId>(), "map must contain CorrelationId after insertion");
    assert!(!ext.contains::<BearerToken>(), "BearerToken was not inserted; contains must return false");
}

#[test]
fn multiple_types_coexist_independently() {
    let mut ext = Extensions::new();
    ext.insert(BearerToken("jwt.abc".into()));
    ext.insert(ApiKey("api-xyz".into()));
    ext.insert(CorrelationId("trace-99".into()));

    assert_eq!(ext.get::<BearerToken>().map(|t| t.0.as_str()), Some("jwt.abc"), "BearerToken must be independently retrievable");
    assert_eq!(ext.get::<ApiKey>().map(|k| k.0.as_str()), Some("api-xyz"), "ApiKey must be independently retrievable");
    assert_eq!(
        ext.get::<CorrelationId>().map(|c| c.0.as_str()),
        Some("trace-99"),
        "CorrelationId must be independently retrievable"
    );
}

#[test]
fn request_context_extensions_accessors_share_storage() {
    let mut ctx = RequestContext::new();

    assert!(!ctx.extensions().contains::<BearerToken>(), "fresh RequestContext must have an empty extension map");

    ctx.extensions_mut().insert(BearerToken("ctx-token".into()));

    let token = ctx.extensions().get::<BearerToken>();
    assert!(token.is_some(), "BearerToken inserted via extensions_mut must be visible through extensions");
    assert_eq!(token.unwrap().0, "ctx-token", "the retrieved token must match what was inserted");
}

#[test]
fn extensions_debug_shows_count_not_values() {
    let mut ext = Extensions::new();
    ext.insert(BearerToken("secret-jwt".into()));
    ext.insert(ApiKey("secret-key".into()));

    let debug_output = ext.debug_string();

    assert!(debug_output.contains("count: 2"), "debug output must include the entry count (got: {debug_output})");
    assert!(!debug_output.contains("secret-jwt"), "debug output must not expose the bearer token (got: {debug_output})");
    assert!(!debug_output.contains("secret-key"), "debug output must not expose the API key (got: {debug_output})");
}

#[test]
fn credential_debug_text_is_redacted() {
    assert_eq!(BearerToken("abc".into()).debug_string(), "BearerToken(\"[REDACTED]\")");
    assert_eq!(ApiKey("xyz".into()).debug_string(), "ApiKey(\"[REDACTED]\")");
    assert_eq!(format!("{:?}", CorrelationId("trace-1".into())), "CorrelationId(\"trace-1\")");
}

#[test]
fn request_context_debug_shows_only_the_count() {
    let mut ctx = RequestContext::default();
    ctx.extensions_mut().insert(CorrelationId("trace-7".into()));
    assert_eq!(ctx.debug_string(), "RequestContext { extensions: Extensions { count: 1 } }");
    assert_eq!(Extensions::default().len(), 0);
}

#[test]
fn replacing_a_value_keeps_the_count() {
    let mut ext = Extensions::new();
    ext.insert(ApiKey("first".into()));
    let previous = ext.insert(ApiKey("second".into()));
    assert_eq!(previous.map(|k| k.0), Some("first".to_string()));
    assert_eq!(ext.len(), 1);
    assert_eq!(ext.get::<ApiKey>().map(|k| k.0.as_str()), Some("second"));
}
