//! Streaming events: what an agent sends while a task runs.

use vstd::prelude::*;

use crate::artifact::Artifact;
use crate::message::Message;
use crate::task::{Task, TaskStatus};

verus! {

/// A change of a task's status.
#[derive(Debug, Clone, PartialEq)]
pub struct TaskStatusUpdateEvent {
    /// The task whose status changed.
    pub task_id: String,
    /// Its conversation.
    pub context_id: String,
    /// The new status.
    pub status: TaskStatus,
    /// Caller-defined metadata.
    pub metadata: Option<serde_json::Map<String, serde_json::Value>>,
}

/// A new or extended artifact of a task.
#[derive(Debug, Clone, PartialEq)]
pub struct TaskArtifactUpdateEvent {
    /// The task the artifact belongs to.
    pub task_id: String,
    /// Its conversation.
    pub context_id: String,
    /// The artifact (or chunk of it).
    pub artifact: Artifact,
    /// Whether the parts extend an artifact sent before.
    pub append: bool,
    /// Whether this is the last chunk of the artifact.
    pub last_chunk: bool,
    /// Caller-defined metadata.
    pub metadata: Option<serde_json::Map<String, serde_json::Value>>,
}

/// One event of a stream.
#[derive(Debug, Clone, PartialEq)]
pub enum StreamResponse {
    /// A full task snapshot.
    Task(Task),
    /// A direct message.
    Message(Message),
    /// A status change.
    StatusUpdate(TaskStatusUpdateEvent),
    /// An artifact change.
    ArtifactUpdate(TaskArtifactUpdateEvent),
}

impl TaskStatusUpdateEvent {
    /// A status update without metadata.
    pub fn new(task_id: &str, context_id: &str, status: TaskStatus) -> (r: TaskStatusUpdateEvent)
        ensures
            r.task_id@ == task_id@ && r.context_id@ == context_id@ && r.status == status,
            r.metadata is None,
    {
        TaskStatusUpdateEvent { task_id: task_id.to_owned(), context_id: context_id.to_owned(), status, metadata: None }
    }

    /// Sets the metadata; everything else is kept.
    pub fn with_metadata(self, metadata: serde_json::Map<String, serde_json::Value>) -> (r: TaskStatusUpdateEvent)
        ensures
            r == (TaskStatusUpdateEvent { metadata: Some(metadata), ..self }),
    {
        TaskStatusUpdateEvent { metadata: Some(metadata), ..self }
    }
}

impl TaskArtifactUpdateEvent {
    /// An artifact update that neither appends nor ends the artifact.
    pub fn new(task_id: &str, context_id: &str, artifact: Artifact) -> (r: TaskArtifactUpdateEvent)
        ensures
            r.task_id@ == task_id@ && r.context_id@ == context_id@ && r.artifact == artifact,
            !r.append && !r.last_chunk && r.metadata is None,
    {
        TaskArtifactUpdateEvent {
            task_id: task_id.to_owned(),
            context_id: context_id.to_owned(),
            artifact,
            append: false,
            last_chunk: false,
            metadata: None,
        }
    }

    /// Sets whether the parts extend an earlier artifact; everything else is kept.
    pub fn with_append(self, append: bool) -> (r: TaskArtifactUpdateEvent)
        ensures
            r == (TaskArtifactUpdateEvent { append, ..self }),
    {
        TaskArtifactUpdateEvent { append, ..self }
    }

    /// Sets whether this is the last chunk; everything else is kept.
    pub fn with_last_chunk(self, last_chunk: bool) -> (r: TaskArtifactUpdateEvent)
        ensures
            r == (TaskArtifactUpdateEvent { last_chunk, ..self }),
    {
        TaskArtifactUpdateEvent { last_chunk, ..self }
    }

    /// Sets the metadata; everything else is kept.
    pub fn with_metadata(self, metadata: serde_json::Map<String, serde_json::Value>) -> (r: TaskArtifactUpdateEvent)
        ensures
            r == (TaskArtifactUpdateEvent { metadata: Some(metadata), ..self }),
    {
        TaskArtifactUpdateEvent { metadata: Some(metadata), ..self }
    }
}

} // verus!
