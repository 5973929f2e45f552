use a2a::operation::{CancelTaskParams, GetTaskParams, ListTasksParams, ListTasksResponse, SubscribeToTaskParams};
use a2a::task_state::TaskState;

#[test]
fn get_task_params_new_sets_id_only() {
    let params = GetTaskParams::new("task-builder-1");
    assert_eq!(params.id, "task-builder-1");
    assert!(params.history_length.is_none());
    assert!(params.tenant.is_none());
}

#[test]
fn get_task_params_with_history_length() {
    let params = GetTaskParams::new("task-builder-2").with_history_length(10);
    assert_eq!(params.id, "task-builder-2");
    assert_eq!(params.history_length, Some(10));
}

#[test]
fn get_task_params_with_tenant() {
    let params = GetTaskParams::new("task-builder-3").with_tenant("acme-corp");
    assert_eq!(params.tenant, Some("acme-corp".into()));
}

#[test]
fn get_task_params_builder_matches_struct_literal() {
    let from_builder = GetTaskParams::new("task-1").with_history_length(5);
    let from_literal = GetTaskParams { id: "task-1".into(), history_length: Some(5), tenant: None };
    assert_eq!(from_builder, from_literal);
}

#[test]
fn cancel_task_params_new_sets_id_only() {
    let params = CancelTaskParams::new("cancel-1");
    assert_eq!(params.id, "cancel-1");
    assert!(params.metadata.is_none());
    assert!(params.tenant.is_none());
}

#[test]
fn cancel_task_params_with_metadata() {
    let mut meta_map = serde_json::Map::new();
    meta_map.insert("reason".to_string(), serde_json::Value::String("operator requested".to_string()));
    let expected_map = meta_map.clone();
    let params = CancelTaskParams::new("cancel-2").with_metadata(meta_map);
    assert_eq!(params.metadata, Some(expected_map));
}

#[test]
fn cancel_task_params_with_tenant() {
    let params = CancelTaskParams::new("cancel-3").with_tenant("tenant-x");
    assert_eq!(params.tenant, Some("tenant-x".into()));
    assert!(params.metadata.is_none());
}

#[test]
fn subscribe_to_task_params_new_sets_id_only() {
    let params = SubscribeToTaskParams::new("resub-1");
    assert_eq!(params.id, "resub-1");
    assert!(params.tenant.is_none());
}

#[test]
fn subscribe_to_task_params_with_tenant() {
    let params = SubscribeToTaskParams::new("resub-2").with_tenant("tenant-sub");
    assert_eq!(params.tenant, Some("tenant-sub".into()));
    assert_eq!(params.id, "resub-2");
}

#[test]
fn list_tasks_params_new_all_none() {
    let params = ListTasksParams::new();
    assert!(params.tenant.is_none());
    assert!(params.context_id.is_none());
    assert!(params.status.is_none());
    assert!(params.page_size.is_none());
    assert!(params.page_token.is_none());
    assert!(params.history_length.is_none());
    assert!(params.status_timestamp_after.is_none());
    assert!(params.include_artifacts.is_none());
}

#[test]
fn list_tasks_params_default_matches_new() {
    let from_new = ListTasksParams::new();
    let from_default = ListTasksParams::default();
    assert_eq!(from_new, from_default);
}

#[test]
fn list_tasks_params_builder_chain() {
    // 2026-01-01 00:00:00 UTC
    let cutoff = time::OffsetDateTime::from_unix_timestamp(1_767_225_600).unwrap();
    let params = ListTasksParams::new()
        .with_tenant("acme")
        .with_context_id("ctx-42")
        .with_status(TaskState::Working)
        .with_page_size(10)
        .with_page_token("tok-abc")
        .with_history_length(5)
        .with_status_timestamp_after(cutoff)
        .with_include_artifacts(false);

    assert_eq!(params.tenant, Some("acme".into()));
    assert_eq!(params.context_id, Some("ctx-42".into()));
    assert_eq!(params.status, Some(TaskState::Working));
    assert_eq!(params.page_size, Some(10));
    assert_eq!(params.page_token, Some("tok-abc".into()));
    assert_eq!(params.history_length, Some(5));
    assert_eq!(params.status_timestamp_after, Some(cutoff));
    assert_eq!(params.include_artifacts, Some(false));
}

#[test]
fn list_tasks_response_has_next_page_follows_token() {
    let last = ListTasksResponse { tasks: vec![], page_size: 10, total_size: 0, next_page_token: String::new() };
    assert!(!last.has_next_page());
    let more = ListTasksResponse { tasks: vec![], page_size: 10, total_size: 25, next_page_token: "page-2".into() };
    assert!(more.has_next_page());
}
