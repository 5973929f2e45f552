use a2a::error::{code, A2AError};

fn searched_diagnostics() -> serde_json::Value {
    let mut map = serde_json::Map::new();
    map.insert(
        "searched".to_string(),
        serde_json::Value::Array(vec![
            serde_json::Value::String("active".to_string()),
            serde_json::Value::String("archived".to_string()),
        ]),
    );
    serde_json::Value::Object(map)
}

#[test]
fn error_codes_match_spec() {
    assert_eq!(code::PARSE_ERROR, -32700);
    assert_eq!(code::INVALID_REQUEST, -32600);
    assert_eq!(code::INTERNAL_ERROR, -32603);
    assert_eq!(code::METHOD_NOT_FOUND, -32601);
    assert_eq!(code::INVALID_PARAMS, -32602);

    assert_eq!(code::TASK_NOT_FOUND, -32001);
    assert_eq!(code::TASK_NOT_CANCELABLE, -32002);
    assert_eq!(code::CONTENT_TYPE_NOT_SUPPORTED, -32003);
    assert_eq!(code::UNSUPPORTED_OPERATION, -32004);
    assert_eq!(code::PUSH_NOTIFICATION_NOT_SUPPORTED, -32005);
}

#[test]
fn factory_methods_produce_correct_codes() {
    let err = A2AError::task_not_found("task-42");
    assert_eq!(err.code, code::TASK_NOT_FOUND);
    assert!(err.message.contains("task-42"));

    let err = A2AError::unsupported_operation("SendStreamingMessage");
    assert_eq!(err.code, code::UNSUPPORTED_OPERATION);
    assert!(err.message.contains("SendStreamingMessage"));
}

#[test]
fn display_includes_code_and_message() {
    let err = A2AError::task_not_found("task-99");
    let display = err.to_string();
    assert!(display.contains("-32001"));
    assert!(display.contains("task-99"));
}

#[test]
fn invalid_params_produces_correct_code_and_message() {
    let err = A2AError::invalid_params("missing field `id`");
    assert_eq!(err.code, code::INVALID_PARAMS);
    assert_eq!(
        err.message, "invalid parameters",
        "message must be the generic category string, not the raw serde detail"
    );
    assert_eq!(
        err.data.as_ref().unwrap().as_str().unwrap(),
        "missing field `id`",
        "serde detail must be placed in the data field"
    );
}

#[test]
fn method_not_found_produces_correct_code_and_message() {
    let err = A2AError::method_not_found("tasks/nonexistent");
    assert_eq!(err.code, code::METHOD_NOT_FOUND);
    assert!(
        err.message.contains("tasks/nonexistent"),
        "message should include the unknown method name"
    );
    assert!(err.data.is_none());
}

#[test]
fn transport_produces_correct_code_and_message() {
    let err = A2AError::transport("connection refused");
    assert_eq!(err.code, code::TRANSPORT_ERROR);
    assert!(
        err.message.starts_with("transport error:"),
        "message must begin with the 'transport error:' category prefix"
    );
    assert!(err.message.contains("connection refused"), "message should include the transport failure detail");
    assert!(err.data.is_none());
}

#[test]
fn with_data_attaches_structured_diagnostics() {
    let err = A2AError::task_not_found("task-1").with_data(searched_diagnostics());

    assert_eq!(err.code, code::TASK_NOT_FOUND);
    assert!(err.message.contains("task-1"));
    let data = err.data.unwrap();
    assert_eq!(data["searched"][0], "active");
    assert_eq!(data["searched"][1], "archived");
}

#[test]
fn with_data_chains_with_all_constructors() {
    let mut hint = serde_json::Map::new();
    hint.insert("hint".to_string(), serde_json::Value::String("check spelling".to_string()));
    let diag = serde_json::Value::Object(hint);

    let err = A2AError::invalid_params("bad field").with_data(diag.clone());
    assert_eq!(err.code, code::INVALID_PARAMS);
    assert_eq!(err.data, Some(diag.clone()));

    let err = A2AError::method_not_found("bad/method").with_data(diag.clone());
    assert_eq!(err.code, code::METHOD_NOT_FOUND);
    assert_eq!(err.data, Some(diag.clone()));

    let err = A2AError::transport("timeout").with_data(diag.clone());
    assert_eq!(err.code, code::TRANSPORT_ERROR);
    assert_eq!(err.data, Some(diag));
}

#[test]
fn display_text_is_code_then_message() {
    let err = A2AError::task_not_cancelable("task-7");
    assert_eq!(err.to_string(), format!("A2A error -32002: {}", err.message));
    let err = A2AError::transport("down");
    assert_eq!(err.to_string(), "A2A error -1: transport error: down");
}

#[test]
fn every_constructor_uses_its_code() {
    assert_eq!(A2AError::task_not_cancelable("t").code, code::TASK_NOT_CANCELABLE);
    assert_eq!(A2AError::content_type_not_supported("image/bmp").code, code::CONTENT_TYPE_NOT_SUPPORTED);
    assert_eq!(A2AError::push_notification_not_supported().code, code::PUSH_NOTIFICATION_NOT_SUPPORTED);
    assert_eq!(A2AError::parse_error("eof").code, code::PARSE_ERROR);
    let internal = A2AError::internal_error("boom");
    assert_eq!(internal.code, code::INTERNAL_ERROR);
    assert_eq!(internal.data.as_ref().unwrap().as_str(), Some("boom"));
}
