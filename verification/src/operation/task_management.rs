//! Parameters and results of the task management methods.

use vstd::prelude::*;

use crate::task::Task;
use crate::task_state::TaskState;

verus! {

/// Parameters for fetching a task.
#[derive(Debug, Clone, PartialEq)]
pub struct GetTaskParams {
    /// The task id.
    pub id: String,
    /// How many history messages to include.
    pub history_length: Option<i32>,
    /// Tenant scope.
    pub tenant: Option<String>,
}

impl GetTaskParams {
    /// Parameters for a task id; no history limit or tenant.
    pub fn new(id: &str) -> (r: GetTaskParams)
        ensures
            r.id@ == id@ && r.history_length is None && r.tenant is None,
    {
        GetTaskParams { id: id.to_owned(), history_length: None, tenant: None }
    }

    /// Sets the history length; everything else is kept.
    pub fn with_history_length(self, length: i32) -> (r: GetTaskParams)
        ensures
            r == (GetTaskParams { history_length: Some(length), ..self }),
    {
        GetTaskParams { history_length: Some(length), ..self }
    }

    /// Sets the tenant; everything else is kept.
    pub fn with_tenant(self, tenant: &str) -> (r: GetTaskParams)
        ensures
            r.tenant matches Some(t) && t@ == tenant@,
            r == (GetTaskParams { tenant: r.tenant, ..self }),
    {
        GetTaskParams { tenant: Some(tenant.to_owned()), ..self }
    }
}

/// Parameters for canceling a task.
#[derive(Debug, Clone, PartialEq)]
pub struct CancelTaskParams {
    /// The task id.
    pub id: String,
    /// Caller-defined metadata.
    pub metadata: Option<serde_json::Map<String, serde_json::Value>>,
    /// Tenant scope.
    pub tenant: Option<String>,
}

impl CancelTaskParams {
    /// Parameters for a task id; no metadata or tenant.
    pub fn new(id: &str) -> (r: CancelTaskParams)
        ensures
            r.id@ == id@ && r.metadata is None && r.tenant is None,
    {
        CancelTaskParams { id: id.to_owned(), metadata: None, tenant: None }
    }

    /// Sets the metadata; everything else is kept.
    pub fn with_metadata(self, metadata: serde_json::Map<String, serde_json::Value>) -> (r: CancelTaskParams)
        ensures
            r == (CancelTaskParams { metadata: Some(metadata), ..self }),
    {
        CancelTaskParams { metadata: Some(metadata), ..self }
    }

    /// Sets the tenant; everything else is kept.
    pub fn with_tenant(self, tenant: &str) -> (r: CancelTaskParams)
        ensures
            r.tenant matches Some(t) && t@ == tenant@,
            r == (CancelTaskParams { tenant: r.tenant, ..self }),
    {
        CancelTaskParams { tenant: Some(tenant.to_owned()), ..self }
    }
}

/// Parameters for re-subscribing to a task's stream.
#[derive(Debug, Clone, PartialEq)]
pub struct SubscribeToTaskParams {
    /// The task id.
    pub id: String,
    /// Tenant scope.
    pub tenant: Option<String>,
}

impl SubscribeToTaskParams {
    /// Parameters for a task id; no tenant.
    pub fn new(id: &str) -> (r: SubscribeToTaskParams)
        ensures
            r.id@ == id@ && r.tenant is None,
    {
        SubscribeToTaskParams { id: id.to_owned(), tenant: None }
    }

    /// Sets the tenant; the id is kept.
    pub fn with_tenant(self, tenant: &str) -> (r: SubscribeToTaskParams)
        ensures
            r.tenant matches Some(t) && t@ == tenant@,
            r.id == self.id,
    {
        SubscribeToTaskParams { id: self.id, tenant: Some(tenant.to_owned()) }
    }
}

/// Filters and paging for listing tasks.
#[derive(Debug, Clone, PartialEq)]
pub struct ListTasksParams {
    /// Tenant scope.
    pub tenant: Option<String>,
    /// Only tasks of this conversation.
    pub context_id: Option<String>,
    /// Only tasks in this state.
    pub status: Option<TaskState>,
    /// Page size.
    pub page_size: Option<i32>,
    /// Page cursor.
    pub page_token: Option<String>,
    /// How many history messages to include per task.
    pub history_length: Option<i32>,
    /// Only tasks whose status changed after this instant.
    pub status_timestamp_after: Option<time::OffsetDateTime>,
    /// Whether to include artifacts.
    pub include_artifacts: Option<bool>,
}

impl ListTasksParams {
    /// No filters and no paging.
    pub fn new() -> (r: ListTasksParams)
        ensures
            r.tenant is None && r.context_id is None && r.status is None && r.page_size is None,
            r.page_token is None && r.history_length is None && r.status_timestamp_after is None,
            r.include_artifacts is None,
    {
        ListTasksParams {
            tenant: None,
            context_id: None,
            status: None,
            page_size: None,
            page_token: None,
            history_length: None,
            status_timestamp_after: None,
            include_artifacts: None,
        }
    }

    /// Sets the tenant; everything else is kept.
    pub fn with_tenant(self, tenant: &str) -> (r: ListTasksParams)
        ensures
            r.tenant matches Some(t) && t@ == tenant@,
            r == (ListTasksParams { tenant: r.tenant, ..self }),
    {
        ListTasksParams { tenant: Some(tenant.to_owned()), ..self }
    }

    /// Filters by conversation; everything else is kept.
    pub fn with_context_id(self, context_id: &str) -> (r: ListTasksParams)
        ensures
            r.context_id matches Some(c) && c@ == context_id@,
            r == (ListTasksParams { context_id: r.context_id, ..self }),
    {
        ListTasksParams { context_id: Some(context_id.to_owned()), ..self }
    }

    /// Filters by state; everything else is kept.
    pub fn with_status(self, status: TaskState) -> (r: ListTasksParams)
        ensures
            r == (ListTasksParams { status: Some(status), ..self }),
    {
        ListTasksParams { status: Some(status), ..self }
    }

    /// Sets the page size; everything else is kept.
    pub fn with_page_size(self, page_size: i32) -> (r: ListTasksParams)
        ensures
            r == (ListTasksParams { page_size: Some(page_size), ..self }),
    {
        ListTasksParams { page_size: Some(page_size), ..self }
    }

    /// Sets the page cursor; everything else is kept.
    pub fn with_page_token(self, page_token: &str) -> (r: ListTasksParams)
        ensures
            r.page_token matches Some(t) && t@ == page_token@,
            r == (ListTasksParams { page_token: r.page_token, ..self }),
    {
        ListTasksParams { page_token: Some(page_token.to_owned()), ..self }
    }

    /// Sets the history length; everything else is kept.
    pub fn with_history_length(self, history_length: i32) -> (r: ListTasksParams)
        ensures
            r == (ListTasksParams { history_length: Some(history_length), ..self }),
    {
        ListTasksParams { history_length: Some(history_length), ..self }
    }

    /// Filters by status change time; everything else is kept.
    pub fn with_status_timestamp_after(self, status_timestamp_after: time::OffsetDateTime) -> (r: ListTasksParams)
        ensures
            r == (ListTasksParams { status_timestamp_after: Some(status_timestamp_after), ..self }),
    {
        ListTasksParams { status_timestamp_after: Some(status_timestamp_after), ..self }
    }

    /// Sets whether artifacts are included; everything else is kept.
    pub fn with_include_artifacts(self, include_artifacts: bool) -> (r: ListTasksParams)
        ensures
            r == (ListTasksParams { include_artifacts: Some(include_artifacts), ..self }),
    {
        ListTasksParams { include_artifacts: Some(include_artifacts), ..self }
    }
}

impl Default for ListTasksParams {
    /// The same as `new`.
    fn default() -> (r: ListTasksParams)
        ensures
            r.tenant is None && r.context_id is None && r.status is None && r.page_size is None,
            r.page_token is None && r.history_length is None && r.status_timestamp_after is None,
            r.include_artifacts is None,
    {
        ListTasksParams::new()
    }
}

/// One page of tasks.
#[derive(Debug, Clone, PartialEq)]
pub struct ListTasksResponse {
    /// The tasks on this page.
    pub tasks: Vec<Task>,
    /// The page size used.
    pub page_size: i32,
    /// Number of tasks matching the filters.
    pub total_size: i32,
    /// Cursor of the next page; empty on the last page.
    pub next_page_token: String,
}

impl ListTasksResponse {
    /// Whether another page follows: the cursor is not empty.
    pub fn has_next_page(&self) -> (r: bool)
        ensures
            r == (self.next_page_token@.len() != 0),
    {
        !self.next_page_token.as_str().is_empty()
    }
}

} // verus!
