use a2a::operation::GetExtendedAgentCardParams;
use a2a::operation::{
    METHOD_CANCEL_TASK, METHOD_CREATE_TASK_PUSH_NOTIFICATION_CONFIG, METHOD_DELETE_TASK_PUSH_NOTIFICATION_CONFIG,
    METHOD_GET_EXTENDED_AGENT_CARD, METHOD_GET_TASK, METHOD_GET_TASK_PUSH_NOTIFICATION_CONFIG, METHOD_LIST_TASKS,
    METHOD_LIST_TASK_PUSH_NOTIFICATION_CONFIGS, METHOD_SEND_MESSAGE, METHOD_SEND_STREAMING_MESSAGE,
    METHOD_SUBSCRIBE_TO_TASK,
};

#[test]
fn new_creates_empty_params() {
    let params = GetExtendedAgentCardParams::new();
    assert!(params.tenant.is_none());
}

#[test]
fn new_with_tenant() {
    let params = GetExtendedAgentCardParams::new().with_tenant("org-123");
    assert_eq!(params.tenant, Some("org-123".into()));
}

#[test]
fn builder_matches_struct_literal() {
    let from_builder = GetExtendedAgentCardParams::new();
    let from_literal = GetExtendedAgentCardParams { tenant: None };
    assert_eq!(from_builder, from_literal);
}

#[test]
fn default_matches_new() {
    let from_new = GetExtendedAgentCardParams::new();
    let from_default = GetExtendedAgentCardParams::default();
    assert_eq!(from_new, from_default);
}

#[test]
fn method_constants_match_spec() {
    assert_eq!(METHOD_SEND_MESSAGE, "SendMessage");
    assert_eq!(METHOD_SEND_STREAMING_MESSAGE, "SendStreamingMessage");
    assert_eq!(METHOD_GET_TASK, "GetTask");
    assert_eq!(METHOD_LIST_TASKS, "ListTasks");
    assert_eq!(METHOD_CANCEL_TASK, "CancelTask");
    assert_eq!(METHOD_SUBSCRIBE_TO_TASK, "SubscribeToTask");
    assert_eq!(METHOD_CREATE_TASK_PUSH_NOTIFICATION_CONFIG, "CreateTaskPushNotificationConfig");
    assert_eq!(METHOD_GET_TASK_PUSH_NOTIFICATION_CONFIG, "GetTaskPushNotificationConfig");
    assert_eq!(METHOD_LIST_TASK_PUSH_NOTIFICATION_CONFIGS, "ListTaskPushNotificationConfigs");
    assert_eq!(METHOD_DELETE_TASK_PUSH_NOTIFICATION_CONFIG, "DeleteTaskPushNotificationConfig");
    assert_eq!(METHOD_GET_EXTENDED_AGENT_CARD, "GetExtendedAgentCard");
}

#[test]
fn all_methods_accounted_for() {
    let methods = [
        METHOD_SEND_MESSAGE,
        METHOD_SEND_STREAMING_MESSAGE,
        METHOD_GET_TASK,
        METHOD_LIST_TASKS,
        METHOD_CANCEL_TASK,
        METHOD_SUBSCRIBE_TO_TASK,
        METHOD_CREATE_TASK_PUSH_NOTIFICATION_CONFIG,
        METHOD_GET_TASK_PUSH_NOTIFICATION_CONFIG,
        METHOD_LIST_TASK_PUSH_NOTIFICATION_CONFIGS,
        METHOD_DELETE_TASK_PUSH_NOTIFICATION_CONFIG,
        METHOD_GET_EXTENDED_AGENT_CARD,
    ];
    assert_eq!(methods.len(), 11);

    let mut unique = std::collections::HashSet::new();
    for m in &methods {
        assert!(unique.insert(m), "duplicate method: {m}");
    }
}
