use a2a::message::Message;
use a2a::operation::{SendMessageConfiguration, SendMessageParams, TaskPushNotificationConfig};
use a2a::role::Role;

#[test]
fn params_new_sets_message_only() {
    let params = SendMessageParams::new(Message::text("message-builder-1", Role::User, "hello"));

    assert_eq!(params.message.message_id, "message-builder-1");
    assert!(params.configuration.is_none());
    assert!(params.metadata.is_none());
}

#[test]
fn params_setters_populate_optional_fields() {
    let mut metadata = serde_json::Map::new();
    metadata.insert("trace_id".to_string(), serde_json::Value::String("trace-1".to_string()));
    let params = SendMessageParams::new(Message::text("message-configured-1", Role::User, "configured"))
        .with_configuration(SendMessageConfiguration::new().with_return_immediately(true).with_history_length(5))
        .with_metadata(metadata);

    let configuration = params.configuration.as_ref().unwrap();
    assert!(configuration.return_immediately);
    assert_eq!(configuration.history_length, Some(5));
    assert!(configuration.accepted_output_modes.is_empty());
    assert!(configuration.task_push_notification_config.is_none());
    assert_eq!(params.metadata.as_ref().unwrap()["trace_id"], "trace-1");
}

#[test]
fn configuration_new_starts_empty() {
    let configuration = SendMessageConfiguration::new();

    assert!(configuration.accepted_output_modes.is_empty());
    assert!(!configuration.return_immediately);
    assert!(configuration.history_length.is_none());
    assert!(configuration.task_push_notification_config.is_none());
}

#[test]
fn configuration_default_matches_new() {
    let from_new = SendMessageConfiguration::new();
    let from_default = SendMessageConfiguration::default();
    assert!(from_new == from_default);
}

#[test]
fn params_new_tenant_defaults_to_none_and_with_tenant_sets_it() {
    let params = SendMessageParams::new(Message::text("message-tenant-1", Role::User, "hello"));
    assert!(params.tenant.is_none());
    let params = SendMessageParams::new(Message::text("message-tenant-2", Role::User, "hello")).with_tenant("org-abc");
    assert_eq!(params.tenant, Some("org-abc".into()));
}

#[test]
fn configuration_setters_set_one_field_each() {
    let configuration = SendMessageConfiguration::new()
        .with_accepted_output_modes(vec!["text/plain".into(), "application/json".into()])
        .with_return_immediately(false)
        .with_history_length(20);

    assert_eq!(configuration.accepted_output_modes, vec!["text/plain".to_string(), "application/json".to_string()]);
    assert!(!configuration.return_immediately);
    assert_eq!(configuration.history_length, Some(20));
    assert!(configuration.task_push_notification_config.is_none());

    let push_config = TaskPushNotificationConfig::new("task-cfg-1", "https://hooks.example.com/w");
    let configuration = SendMessageConfiguration::new().with_task_push_notification_config(push_config.clone());
    assert!(configuration.task_push_notification_config.as_ref().unwrap() == &push_config);
}

#[test]
fn configuration_setters_populate_all_fields() {
    let configuration = SendMessageConfiguration::new()
        .with_accepted_output_modes(vec!["text/plain".into(), "application/json".into()])
        .with_return_immediately(false)
        .with_history_length(20);

    assert_eq!(configuration.accepted_output_modes, vec!["text/plain".to_string(), "application/json".to_string()]);
    assert!(!configuration.return_immediately);
    assert_eq!(configuration.history_length, Some(20));
    assert!(configuration.task_push_notification_config.is_none());
}

#[test]
fn params_new_tenant_defaults_to_none() {
    let params = SendMessageParams::new(Message::text("message-tenant-1", Role::User, "hello"));
    assert!(params.tenant.is_none());
}

#[test]
fn params_with_tenant_populates_field() {
    let params = SendMessageParams::new(Message::text("message-tenant-2", Role::User, "hello")).with_tenant("org-abc");
    assert_eq!(params.tenant, Some("org-abc".into()));
}

#[test]
fn configuration_with_task_push_notification_config() {
    let push_config = TaskPushNotificationConfig::new("task-cfg-1", "https://hooks.example.com/w");
    let configuration = SendMessageConfiguration::new().with_task_push_notification_config(push_config.clone());

    assert!(configuration.task_push_notification_config.as_ref().unwrap() == &push_config);
}
