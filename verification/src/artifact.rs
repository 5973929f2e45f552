//! Artifacts: outputs an agent produces for a task.

use vstd::prelude::*;

use crate::part::Part;

verus! {

/// An output of a task.
#[derive(Debug, Clone, PartialEq)]
pub struct Artifact {
    /// Unique identifier within the task.
    pub artifact_id: String,
    /// Human-readable name.
    pub name: Option<String>,
    /// Human-readable description.
    pub description: Option<String>,
    /// The content parts.
    pub parts: Vec<Part>,
    /// Caller-defined metadata.
    pub metadata: Option<serde_json::Map<String, serde_json::Value>>,
    /// Extension URIs that apply to it.
    pub extensions: Vec<String>,
}

impl Artifact {
    /// An artifact with its id and parts; every optional field empty.
    pub fn new(artifact_id: &str, parts: Vec<Part>) -> (r: Artifact)
        ensures
            r.artifact_id@ == artifact_id@,
            r.parts == parts,
            r.name is None && r.description is None && r.metadata is None,
            r.extensions@.len() == 0,
    {
        Artifact {
            artifact_id: artifact_id.to_owned(),
            name: None,
            description: None,
            parts,
            metadata: None,
            extensions: Vec::new(),
        }
    }

    /// Sets the name; everything else is kept.
    pub fn with_name(self, name: &str) -> (r: Artifact)
        ensures
            r.name matches Some(n) && n@ == name@,
            r == (Artifact { name: r.name, ..self }),
    {
        Artifact { name: Some(name.to_owned()), ..self }
    }

    /// Sets the description; everything else is kept.
    pub fn with_description(self, description: &str) -> (r: Artifact)
        ensures
            r.description matches Some(d) && d@ == description@,
            r == (Artifact { description: r.description, ..self }),
    {
        Artifact { description: Some(description.to_owned()), ..self }
    }

    /// Sets the metadata; everything else is kept.
    pub fn with_metadata(self, metadata: serde_json::Map<String, serde_json::Value>) -> (r: Artifact)
        ensures
            r == (Artifact { metadata: Some(metadata), ..self }),
    {
        Artifact { metadata: Some(metadata), ..self }
    }

    /// Sets the extension URIs; everything else is kept.
    pub fn with_extensions(self, extensions: Vec<String>) -> (r: Artifact)
        ensures
            r == (Artifact { extensions, ..self }),
    {
        Artifact { extensions, ..self }
    }
}

} // verus!
