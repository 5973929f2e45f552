//! Messages: one turn of the conversation between user and agent.

use vstd::prelude::*;

use crate::part::{Part, PartContent};
use crate::role::Role;

verus! {

/// One message, from the user or from the agent.
#[derive(Debug, Clone, PartialEq)]
pub struct Message {
    /// Unique identifier of the message.
    pub message_id: String,
    /// Who sent it.
    pub role: Role,
    /// Its content parts.
    pub parts: Vec<Part>,
    /// The conversation it belongs to.
    pub context_id: Option<String>,
    /// The task it belongs to.
    pub task_id: Option<String>,
    /// Tasks it refers to.
    pub reference_task_ids: Vec<String>,
    /// Caller-defined metadata.
    pub metadata: Option<serde_json::Map<String, serde_json::Value>>,
    /// Extension URIs that apply to it.
    pub extensions: Vec<String>,
}

impl Message {
    /// A message with its required fields; every optional field empty.
    pub fn new(message_id: &str, role: Role, parts: Vec<Part>) -> (r: Message)
        ensures
            r.message_id@ == message_id@,
            r.role == role,
            r.parts == parts,
            r.context_id is None && r.task_id is None && r.metadata is None,
            r.reference_task_ids@.len() == 0 && r.extensions@.len() == 0,
    {
        Message {
            message_id: message_id.to_owned(),
            role,
            parts,
            context_id: None,
            task_id: None,
            reference_task_ids: Vec::new(),
            metadata: None,
            extensions: Vec::new(),
        }
    }

    /// A message holding a single text part.
    pub fn text(message_id: &str, role: Role, text: &str) -> (r: Message)
        ensures
            r.message_id@ == message_id@,
            r.role == role,
            r.parts@.len() == 1,
            r.parts@[0].content matches PartContent::Text(t) && t@ == text@,
            r.parts@[0].metadata is None && r.parts@[0].filename is None && r.parts@[0].media_type is None,
            r.context_id is None && r.task_id is None && r.metadata is None,
            r.reference_task_ids@.len() == 0 && r.extensions@.len() == 0,
    {
        Message::new(message_id, role, vec![Part::text(text)])
    }

    /// Sets the conversation id; everything else is kept.
    pub fn with_context_id(self, context_id: &str) -> (r: Message)
        ensures
            r.context_id matches Some(c) && c@ == context_id@,
            r == (Message { context_id: r.context_id, ..self }),
    {
        Message { context_id: Some(context_id.to_owned()), ..self }
    }

    /// Sets the task id; everything else is kept.
    pub fn with_task_id(self, task_id: &str) -> (r: Message)
        ensures
            r.task_id matches Some(t) && t@ == task_id@,
            r == (Message { task_id: r.task_id, ..self }),
    {
        Message { task_id: Some(task_id.to_owned()), ..self }
    }

    /// Sets the referenced task ids; everything else is kept.
    pub fn with_reference_task_ids(self, ids: Vec<String>) -> (r: Message)
        ensures
            r == (Message { reference_task_ids: ids, ..self }),
    {
        Message { reference_task_ids: ids, ..self }
    }

    /// Sets the metadata; everything else is kept.
    pub fn with_metadata(self, metadata: serde_json::Map<String, serde_json::Value>) -> (r: Message)
        ensures
            r == (Message { metadata: Some(metadata), ..self }),
    {
        Message { metadata: Some(metadata), ..self }
    }

    /// Sets the extension URIs; everything else is kept.
    pub fn with_extensions(self, extensions: Vec<String>) -> (r: Message)
        ensures
            r == (Message { extensions, ..self }),
    {
        Message { extensions, ..self }
    }
}

} // verus!
