use a2a::artifact::Artifact;
use a2a::message::Message;
use a2a::part::{Part, PartContent};
use a2a::role::Role;
use a2a::stream_event::{TaskArtifactUpdateEvent, TaskStatusUpdateEvent};
use a2a::task::{Task, TaskStatus};
use a2a::task_state::TaskState;

fn utc(year: i32, month: time::Month, day: u8, hour: u8, minute: u8) -> time::OffsetDateTime {
    time::Date::from_calendar_date(year, month, day).unwrap().with_hms(hour, minute, 0).unwrap().assume_utc()
}

fn map_of(key: &str, value: serde_json::Value) -> serde_json::Map<String, serde_json::Value> {
    let mut map = serde_json::Map::new();
    map.insert(key.to_string(), value);
    map
}

#[test]
fn new_sets_required_fields_and_defaults() {
    let message = Message::new("message-new-1", Role::User, vec![Part::text("hello")]);

    assert_eq!(message.message_id, "message-new-1");
    assert_eq!(message.role, Role::User);
    assert_eq!(message.parts.len(), 1);
    assert!(message.context_id.is_none());
    assert!(message.task_id.is_none());
    assert!(message.reference_task_ids.is_empty());
    assert!(message.metadata.is_none());
    assert!(message.extensions.is_empty());
}

#[test]
fn text_creates_single_text_part() {
    let message = Message::text("message-text-1", Role::Agent, "hello world");

    assert_eq!(message.message_id, "message-text-1");
    assert_eq!(message.role, Role::Agent);
    assert_eq!(message.parts.len(), 1);
    let part = &message.parts[0];
    assert!(matches!(&part.content, PartContent::Text(t) if t == "hello world"), "expected text content 'hello world'");
    assert!(part.metadata.is_none());
}

#[test]
fn chainable_setters_populate_optional_fields() {
    let message = Message::text("message-chained-1", Role::User, "chained")
        .with_context_id("context-1")
        .with_task_id("task-1")
        .with_reference_task_ids(vec!["reference-1".into(), "reference-2".into()])
        .with_metadata(map_of("key", serde_json::Value::String("value".into())))
        .with_extensions(vec!["ext:custom-extension".into()]);

    assert_eq!(message.context_id.as_deref(), Some("context-1"));
    assert_eq!(message.task_id.as_deref(), Some("task-1"));
    assert_eq!(message.reference_task_ids, vec!["reference-1".to_string(), "reference-2".to_string()]);
    assert_eq!(message.metadata.unwrap()["key"], "value");
    assert_eq!(message.extensions, vec!["ext:custom-extension".to_string()]);
}

#[test]
fn builder_produces_same_wire_format_as_struct_literal() {
    let from_builder = Message::text("message-equivalence", Role::Agent, "same").with_context_id("context-equivalence");

    let from_literal = Message {
        message_id: "message-equivalence".into(),
        role: Role::Agent,
        parts: vec![Part::text("same")],
        context_id: Some("context-equivalence".into()),
        task_id: None,
        reference_task_ids: vec![],
        metadata: None,
        extensions: vec![],
    };
    assert_eq!(from_builder, from_literal);
}

#[test]
fn task_status_new_sets_state_only() {
    let status = TaskStatus::new(TaskState::Working);

    assert_eq!(status.state, TaskState::Working);
    assert!(status.message.is_none());
    assert!(status.timestamp.is_none());
}

#[test]
fn stateless_convenience_constructors() {
    let submitted = TaskStatus::submitted();
    assert_eq!(submitted.state, TaskState::Submitted);
    assert!(submitted.message.is_none());
    assert!(submitted.timestamp.is_none());

    let working = TaskStatus::working();
    assert_eq!(working.state, TaskState::Working);
    assert!(working.message.is_none());

    let completed = TaskStatus::completed();
    assert_eq!(completed.state, TaskState::Completed);
    assert!(completed.message.is_none());

    let canceled = TaskStatus::canceled();
    assert_eq!(canceled.state, TaskState::Canceled);
    assert!(canceled.message.is_none());

    let rejected = TaskStatus::rejected();
    assert_eq!(rejected.state, TaskState::Rejected);
    assert!(rejected.message.is_none());
}

#[test]
fn message_bearing_convenience_constructors() {
    let failed = TaskStatus::failed(Message::text("failure-message-1", Role::Agent, "upstream service timed out"));
    assert_eq!(failed.state, TaskState::Failed);
    assert_eq!(failed.message.as_ref().unwrap().message_id, "failure-message-1");

    let input_required = TaskStatus::input_required(Message::text("input-message-1", Role::Agent, "please provide your API key"));
    assert_eq!(input_required.state, TaskState::InputRequired);
    assert_eq!(input_required.message.as_ref().unwrap().message_id, "input-message-1");

    let auth_required =
        TaskStatus::auth_required(Message::text("auth-message-1", Role::Agent, "bearer token expired, please re-authenticate"));
    assert_eq!(auth_required.state, TaskState::AuthRequired);
    assert_eq!(auth_required.message.as_ref().unwrap().message_id, "auth-message-1");
}

#[test]
fn convenience_constructors_chain_with_timestamp() {
    let timestamp = utc(2026, time::Month::March, 16, 10, 0);
    let status = TaskStatus::completed().with_timestamp(timestamp);

    assert_eq!(status.state, TaskState::Completed);
    assert_eq!(status.timestamp, Some(timestamp));

    let manual = TaskStatus { state: TaskState::Completed, message: None, timestamp: Some(timestamp) };
    assert_eq!(status, manual);
}

#[test]
fn timestamps_are_stored_in_utc() {
    let offset = time::UtcOffset::from_hms(2, 0, 0).unwrap();
    let local = utc(2026, time::Month::March, 16, 10, 0).to_offset(offset);
    let status = TaskStatus::working().with_timestamp(local);
    let stored = status.timestamp.unwrap();
    assert_eq!(stored.offset(), time::UtcOffset::UTC);
    assert_eq!(stored, local);
    assert_eq!(stored.hour(), 10);
}

#[test]
fn try_with_timestamp_gives_the_status_back_when_out_of_range() {
    let extreme = time::PrimitiveDateTime::MAX.assume_offset(time::UtcOffset::from_hms(-1, 0, 0).unwrap());
    let status = TaskStatus::working();
    assert_eq!(status.clone().try_with_timestamp(extreme), Err(status.clone()));
    let ok = status.try_with_timestamp(utc(2026, time::Month::January, 1, 0, 0)).unwrap();
    assert_eq!(ok.timestamp, Some(utc(2026, time::Month::January, 1, 0, 0)));
}

#[test]
fn task_status_setters_populate_fields() {
    let timestamp = utc(2026, time::Month::March, 15, 12, 0);
    let status = TaskStatus::new(TaskState::Failed)
        .with_message(Message::text("status-message-1", Role::Agent, "out of memory"))
        .with_timestamp(timestamp);

    assert_eq!(status.state, TaskState::Failed);
    assert_eq!(status.message.as_ref().unwrap().message_id, "status-message-1");
    assert_eq!(status.timestamp, Some(timestamp));
}

#[test]
fn task_new_sets_required_fields_and_defaults() {
    let task = Task::new("task-new-1", "context-new-1", TaskStatus::new(TaskState::Submitted));

    assert_eq!(task.id, "task-new-1");
    assert_eq!(task.context_id, "context-new-1");
    assert_eq!(task.status.state, TaskState::Submitted);
    assert!(task.artifacts.is_empty());
    assert!(task.history.is_empty());
    assert!(task.metadata.is_none());
}

#[test]
fn task_setters_populate_optional_fields() {
    let task = Task::new(
        "task-built-1",
        "context-built-1",
        TaskStatus::new(TaskState::Completed).with_timestamp(utc(2026, time::Month::March, 15, 13, 0)),
    )
    .with_artifacts(vec![Artifact {
        artifact_id: "artifact-1".into(),
        name: Some("output".into()),
        description: None,
        parts: vec![Part::text("result")],
        metadata: None,
        extensions: vec![],
    }])
    .with_history(vec![Message::text("history-message-1", Role::User, "do the thing")])
    .with_metadata(map_of("priority", serde_json::Value::String("high".into())));

    assert_eq!(task.artifacts.len(), 1);
    assert_eq!(task.history.len(), 1);
    assert_eq!(task.metadata.as_ref().unwrap()["priority"], "high");
}

#[test]
fn new_sets_id_and_parts_only() {
    let artifact = Artifact::new("artifact-new-1", vec![Part::text("output content")]);

    assert_eq!(artifact.artifact_id, "artifact-new-1");
    assert_eq!(artifact.parts.len(), 1);
    assert!(artifact.name.is_none());
    assert!(artifact.description.is_none());
    assert!(artifact.metadata.is_none());
    assert!(artifact.extensions.is_empty());
}

#[test]
fn artifact_setters_set_one_field_each() {
    let artifact = Artifact::new("artifact-2", vec![Part::text("x")])
        .with_name("report")
        .with_description("the report")
        .with_metadata(map_of("pipeline_version", serde_json::Value::String("3.0".into())))
        .with_extensions(vec!["ext:a".into()]);
    assert_eq!(artifact.name.as_deref(), Some("report"));
    assert_eq!(artifact.description.as_deref(), Some("the report"));
    assert_eq!(artifact.metadata.as_ref().unwrap()["pipeline_version"], "3.0");
    assert_eq!(artifact.extensions, vec!["ext:a".to_string()]);
}

#[test]
fn status_update_event_new_sets_defaults() {
    let event = TaskStatusUpdateEvent::new("task-status-new-1", "context-status-new-1", TaskStatus::working());

    assert_eq!(event.task_id, "task-status-new-1");
    assert_eq!(event.context_id, "context-status-new-1");
    assert_eq!(event.status.state, TaskState::Working);
    assert!(event.metadata.is_none());
}

#[test]
fn artifact_update_event_new_sets_defaults() {
    let event = TaskArtifactUpdateEvent::new(
        "task-artifact-new-1",
        "context-artifact-new-1",
        Artifact::new("artifact-event-1", vec![Part::text("output")]),
    );

    assert_eq!(event.task_id, "task-artifact-new-1");
    assert_eq!(event.context_id, "context-artifact-new-1");
    assert_eq!(event.artifact.artifact_id, "artifact-event-1");
    assert!(!event.append);
    assert!(!event.last_chunk);
    assert!(event.metadata.is_none());
}

#[test]
fn event_setters_set_one_field_each() {
    let event = TaskStatusUpdateEvent::new("task-1", "ctx-1", TaskStatus::working())
        .with_metadata(map_of("trace_id", serde_json::Value::String("trace-abc".into())));
    assert_eq!(event.metadata.as_ref().unwrap()["trace_id"], "trace-abc");
    assert_eq!(event.status.state, TaskState::Working);

    let event = TaskArtifactUpdateEvent::new("task-2", "ctx-2", Artifact::new("art-1", vec![Part::text("chunk")]))
        .with_append(true)
        .with_last_chunk(true)
        .with_metadata(map_of("chunk_sequence", serde_json::Value::from(3)));
    assert!(event.append);
    assert!(event.last_chunk);
    assert_eq!(event.metadata.as_ref().unwrap()["chunk_sequence"], 3);
}

fn object(text: &str) -> serde_json::Map<String, serde_json::Value> {
    serde_json::from_str::<serde_json::Value>(text).unwrap().as_object().unwrap().clone()
}

#[test]
fn setters_populate_optional_fields() {
    let artifact = Artifact::new(
        "artifact-configured-1",
        vec![Part::data(serde_json::from_str(r#"{"score": 0.95}"#).unwrap())],
    )
    .with_name("analysis results")
    .with_description("confidence scores from the ML pipeline")
    .with_metadata(object(r#"{"pipeline_version": "3.0"}"#))
    .with_extensions(vec!["ext:ml-scores".into()]);

    assert_eq!(artifact.name.as_deref(), Some("analysis results"));
    assert_eq!(artifact.description.as_deref(), Some("confidence scores from the ML pipeline"));
    assert_eq!(artifact.metadata.as_ref().unwrap()["pipeline_version"], "3.0");
    assert_eq!(artifact.extensions, vec!["ext:ml-scores"]);
}

#[test]
fn status_update_event_setters_populate_fields() {
    let event = TaskStatusUpdateEvent::new(
        "task-status-final-1",
        "context-status-final-1",
        TaskStatus::completed().with_timestamp(utc(2026, time::Month::March, 16, 12, 0)),
    )
    .with_metadata(object(r#"{"trace_id": "trace-abc"}"#));

    assert_eq!(event.metadata.as_ref().unwrap()["trace_id"], "trace-abc");
}

#[test]
fn artifact_update_event_setters_populate_fields() {
    let event = TaskArtifactUpdateEvent::new(
        "task-artifact-chunked-1",
        "context-artifact-chunked-1",
        Artifact::new("artifact-chunked-1", vec![Part::text("final chunk")]),
    )
    .with_append(true)
    .with_last_chunk(true)
    .with_metadata(object(r#"{"chunk_sequence": 3}"#));

    assert!(event.append);
    assert!(event.last_chunk);
    assert_eq!(event.metadata.as_ref().unwrap()["chunk_sequence"], 3);
}

#[test]
fn failed_with_timestamp_round_trips() {
    let status = TaskStatus::failed(Message::text("failure-roundtrip-1", Role::Agent, "database connection lost"))
        .with_timestamp(utc(2026, time::Month::March, 16, 11, 30));

    assert_eq!(status.state, TaskState::Failed);
    assert!(status.message.is_some());
    assert!(status.timestamp.is_some());
}
