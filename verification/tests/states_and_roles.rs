use a2a::role::Role;
use a2a::task_state::TaskState;

#[test]
fn role_display_matches_wire_format_strings() {
    assert_eq!(Role::User.to_string(), "user");
    assert_eq!(Role::Agent.to_string(), "agent");
}

#[test]
fn terminal_states_are_correct() {
    assert!(!TaskState::Submitted.is_terminal());
    assert!(!TaskState::Working.is_terminal());
    assert!(!TaskState::InputRequired.is_terminal());
    assert!(!TaskState::AuthRequired.is_terminal());
    assert!(!TaskState::Unknown("processing".into()).is_terminal());

    assert!(TaskState::Completed.is_terminal());
    assert!(TaskState::Failed.is_terminal());
    assert!(TaskState::Canceled.is_terminal());
    assert!(TaskState::Rejected.is_terminal());
}

#[test]
fn task_state_display_matches_wire_format_strings() {
    assert_eq!(TaskState::Submitted.to_string(), "submitted");
    assert_eq!(TaskState::Working.to_string(), "working");
    assert_eq!(TaskState::Completed.to_string(), "completed");
    assert_eq!(TaskState::Failed.to_string(), "failed");
    assert_eq!(TaskState::Canceled.to_string(), "canceled");
    assert_eq!(TaskState::InputRequired.to_string(), "input-required");
    assert_eq!(TaskState::Rejected.to_string(), "rejected");
    assert_eq!(TaskState::AuthRequired.to_string(), "auth-required");

    assert_eq!(TaskState::Unknown("processing".into()).to_string(), "processing");
}

#[test]
fn wire_names_read_back_to_the_same_state() {
    let all_states = [
        TaskState::Submitted,
        TaskState::Working,
        TaskState::Completed,
        TaskState::Failed,
        TaskState::Canceled,
        TaskState::InputRequired,
        TaskState::Rejected,
        TaskState::AuthRequired,
        TaskState::Unknown("future-state".into()),
    ];
    for state in &all_states {
        assert_eq!(&TaskState::from_wire(&state.to_string()), state);
    }
}

#[test]
fn unrecognised_wire_names_are_kept_verbatim() {
    assert_eq!(TaskState::from_wire("processing"), TaskState::Unknown("processing".into()));
    assert_eq!(TaskState::from_wire("paused"), TaskState::Unknown("paused".into()));
    assert_eq!(TaskState::from_wire("processing").to_string(), "processing");
}

#[test]
fn role_wire_names_round_trip_and_others_are_refused() {
    for role in [Role::User, Role::Agent] {
        assert_eq!(Role::from_wire(&role.to_string()), Some(role));
    }
    assert_eq!(Role::from_wire("system"), None);
    assert_eq!(Role::from_wire("assistant"), None);
}

// Reads a state from the JSON text of its wire string.
fn state_from_json(text: &str) -> TaskState {
    let raw: String = serde_json::from_str(text).unwrap();
    TaskState::from_wire(&raw)
}

// Writes a state as the JSON text of its wire string.
fn state_to_json(state: &TaskState) -> String {
    serde_json::to_string(state.as_str()).unwrap()
}

#[test]
fn serialises_to_spec_wire_values() {
    let cases = vec![
        (TaskState::Submitted, "\"submitted\""),
        (TaskState::Working, "\"working\""),
        (TaskState::Completed, "\"completed\""),
        (TaskState::Failed, "\"failed\""),
        (TaskState::Canceled, "\"canceled\""),
        (TaskState::InputRequired, "\"input-required\""),
        (TaskState::Rejected, "\"rejected\""),
        (TaskState::AuthRequired, "\"auth-required\""),
    ];

    for (state, expected) in cases {
        let json = state_to_json(&state);
        assert_eq!(json, expected, "wire format mismatch for {:?}", state);

        let round_tripped = state_from_json(&json);
        assert_eq!(round_tripped, state, "round-trip failed for {}", expected);
    }
}

#[test]
fn unknown_state_deserialises_unknown_values() {
    let result = state_from_json("\"processing\"");
    assert_eq!(result, TaskState::Unknown("processing".into()));

    let result = state_from_json("\"paused\"");
    assert_eq!(result, TaskState::Unknown("paused".into()));
}

#[test]
fn unknown_state_round_trips_original_string() {
    let original = "\"processing\"";
    let state = state_from_json(original);

    assert_eq!(state, TaskState::Unknown("processing".into()));

    let re_serialised = state_to_json(&state);
    assert_eq!(re_serialised, original, "Unknown must round-trip to its original wire string");
}

#[test]
fn task_state_display_agrees_with_serde_serialisation() {
    let all_states = [
        TaskState::Submitted,
        TaskState::Working,
        TaskState::Completed,
        TaskState::Failed,
        TaskState::Canceled,
        TaskState::InputRequired,
        TaskState::Rejected,
        TaskState::AuthRequired,
        TaskState::Unknown("future-state".into()),
    ];

    for state in &all_states {
        let display_string = state.to_string();
        let serde_string = state_to_json(state);
        let serde_unquoted = serde_string.trim_matches('"');
        assert_eq!(display_string, serde_unquoted, "Display and serde disagree for {:?}", state);
    }
}

// Reads a role from the JSON text of its wire string.
fn role_from_json(text: &str) -> Option<Role> {
    let raw: String = serde_json::from_str(text).unwrap();
    Role::from_wire(&raw)
}

#[test]
fn serialises_to_lowercase_wire_values() {
    assert_eq!(serde_json::to_string(Role::User.as_str()).unwrap(), "\"user\"");
    assert_eq!(serde_json::to_string(Role::Agent.as_str()).unwrap(), "\"agent\"");
}

#[test]
fn round_trips_both_roles() {
    for role in [Role::User, Role::Agent] {
        let json = serde_json::to_string(role.as_str()).unwrap();
        let back = role_from_json(&json).unwrap();
        assert_eq!(back, role);
    }
}

#[test]
fn rejects_unknown_role() {
    assert!(role_from_json("\"system\"").is_none());
    assert!(role_from_json("\"assistant\"").is_none());
}

#[test]
fn role_display_agrees_with_serde_serialisation() {
    for role in [Role::User, Role::Agent] {
        let display_string = role.to_string();
        let serde_string = serde_json::to_string(role.as_str()).unwrap();
        let serde_unquoted = serde_string.trim_matches('"');
        assert_eq!(display_string, serde_unquoted, "Display and serde disagree for {:?}", role);
    }
}
