//! Tasks: the stateful unit of work an agent performs, with its status.

use vstd::prelude::*;

use crate::artifact::Artifact;
use crate::message::Message;
use crate::task_state::TaskState;
use crate::timestamp::{checked_to_utc, utc_form};

verus! {

/// The current status of a task.
#[derive(Debug, Clone, PartialEq)]
pub struct TaskStatus {
    /// The lifecycle state.
    pub state: TaskState,
    /// An optional message explaining the state.
    pub message: Option<Message>,
    /// When the state was set, in UTC.
    pub timestamp: Option<time::OffsetDateTime>,
}

/// A task with its status, outputs and history.
#[derive(Debug, Clone, PartialEq)]
pub struct Task {
    /// Unique identifier of the task.
    pub id: String,
    /// The conversation it belongs to (empty when unknown).
    pub context_id: String,
    /// Its current status.
    pub status: TaskStatus,
    /// Outputs produced so far.
    pub artifacts: Vec<Artifact>,
    /// Messages exchanged so far.
    pub history: Vec<Message>,
    /// Caller-defined metadata.
    pub metadata: Option<serde_json::Map<String, serde_json::Value>>,
}

impl TaskStatus {
    /// A status in the given state, without message or timestamp.
    pub fn new(state: TaskState) -> (r: TaskStatus)
        ensures
            r.state == state && r.message is None && r.timestamp is None,
    {
        TaskStatus { state, message: None, timestamp: None }
    }

    /// A submitted status.
    pub fn submitted() -> (r: TaskStatus)
        ensures
            r.state == TaskState::Submitted && r.message is None && r.timestamp is None,
    {
        TaskStatus::new(TaskState::Submitted)
    }

    /// A working status.
    pub fn working() -> (r: TaskStatus)
        ensures
            r.state == TaskState::Working && r.message is None && r.timestamp is None,
    {
        TaskStatus::new(TaskState::Working)
    }

    /// A completed status.
    pub fn completed() -> (r: TaskStatus)
        ensures
            r.state == TaskState::Completed && r.message is None && r.timestamp is None,
    {
        TaskStatus::new(TaskState::Completed)
    }

    /// A failed status with its diagnostic message.
    pub fn failed(message: Message) -> (r: TaskStatus)
        ensures
            r.state == TaskState::Failed && r.message == Some(message) && r.timestamp is None,
    {
        TaskStatus::new(TaskState::Failed).with_message(message)
    }

    /// A canceled status.
    pub fn canceled() -> (r: TaskStatus)
        ensures
            r.state == TaskState::Canceled && r.message is None && r.timestamp is None,
    {
        TaskStatus::new(TaskState::Canceled)
    }

    /// A rejected status.
    pub fn rejected() -> (r: TaskStatus)
        ensures
            r.state == TaskState::Rejected && r.message is None && r.timestamp is None,
    {
        TaskStatus::new(TaskState::Rejected)
    }

    /// An input-required status with the message asking for input.
    pub fn input_required(message: Message) -> (r: TaskStatus)
        ensures
            r.state == TaskState::InputRequired && r.message == Some(message) && r.timestamp is None,
    {
        TaskStatus::new(TaskState::InputRequired).with_message(message)
    }

    /// An auth-required status with the message explaining what is needed.
    pub fn auth_required(message: Message) -> (r: TaskStatus)
        ensures
            r.state == TaskState::AuthRequired && r.message == Some(message) && r.timestamp is None,
    {
        TaskStatus::new(TaskState::AuthRequired).with_message(message)
    }

    /// Sets the status message; everything else is kept.
    pub fn with_message(self, message: Message) -> (r: TaskStatus)
        ensures
            r.state == self.state && r.message == Some(message) && r.timestamp == self.timestamp,
    {
        TaskStatus { message: Some(message), ..self }
    }

    /// Sets the timestamp, converted to UTC. The instant must have a UTC form
    /// inside the supported date range (see `try_with_timestamp`).
    pub fn with_timestamp(self, timestamp: time::OffsetDateTime) -> (r: TaskStatus)
        requires
            utc_form(timestamp) is Some,
        ensures
            r.state == self.state && r.message == self.message,
            r.timestamp == utc_form(timestamp),
    {
        let utc = checked_to_utc(timestamp);
        TaskStatus { timestamp: utc, ..self }
    }

    /// Sets the timestamp, converted to UTC, when that UTC form exists;
    /// otherwise gives the status back unchanged as `Err`.
    pub fn try_with_timestamp(self, timestamp: time::OffsetDateTime) -> (r: Result<TaskStatus, TaskStatus>)
        ensures
            utc_form(timestamp) is Some ==> (r matches Ok(s) && s.state == self.state
                && s.message == self.message && s.timestamp == utc_form(timestamp)),
            utc_form(timestamp) is None ==> r == Err::<TaskStatus, TaskStatus>(self),
    {
        match checked_to_utc(timestamp) {
            Some(_) => Ok(self.with_timestamp(timestamp)),
            None => Err(self),
        }
    }
}

impl Task {
    /// A task with id, conversation id and status; no artifacts, history or metadata.
    pub fn new(id: &str, context_id: &str, status: TaskStatus) -> (r: Task)
        ensures
            r.id@ == id@ && r.context_id@ == context_id@ && r.status == status,
            r.artifacts@.len() == 0 && r.history@.len() == 0 && r.metadata is None,
    {
        Task {
            id: id.to_owned(),
            context_id: context_id.to_owned(),
            status,
            artifacts: Vec::new(),
            history: Vec::new(),
            metadata: None,
        }
    }

    /// Sets the conversation id; everything else is kept.
    pub fn with_context_id(self, context_id: &str) -> (r: Task)
        ensures
            r.context_id@ == context_id@,
            r == (Task { context_id: r.context_id, ..self }),
    {
        Task { context_id: context_id.to_owned(), ..self }
    }

    /// Sets the artifacts; everything else is kept.
    pub fn with_artifacts(self, artifacts: Vec<Artifact>) -> (r: Task)
        ensures
            r == (Task { artifacts, ..self }),
    {
        Task { artifacts, ..self }
    }

    /// Sets the history; everything else is kept.
    pub fn with_history(self, history: Vec<Message>) -> (r: Task)
        ensures
            r == (Task { history, ..self }),
    {
        Task { history, ..self }
    }

    /// Sets the metadata; everything else is kept.
    pub fn with_metadata(self, metadata: serde_json::Map<String, serde_json::Value>) -> (r: Task)
        ensures
            r == (Task { metadata: Some(metadata), ..self }),
    {
        Task { metadata: Some(metadata), ..self }
    }
}

} // verus!
