//! Push notification configurations and the parameters of their methods.

use vstd::prelude::*;

use crate::text::{debug_opt_text, debug_quoted, debug_text, push_debug_opt, push_redacted_opt, redacted_opt_text};

verus! {

/// How the agent authenticates to a webhook.
#[derive(Clone, PartialEq)]
pub struct AuthenticationInfo {
    /// The HTTP auth scheme ("Bearer", "Basic", ...).
    pub scheme: String,
    /// The credentials (secret).
    pub credentials: Option<String>,
}

impl AuthenticationInfo {
    /// Authentication with a scheme and credentials.
    pub fn new(scheme: &str, credentials: &str) -> (r: AuthenticationInfo)
        ensures
            r.scheme@ == scheme@,
            r.credentials matches Some(c) && c@ == credentials@,
    {
        AuthenticationInfo { scheme: scheme.to_owned(), credentials: Some(credentials.to_owned()) }
    }

    /// Bearer authentication: scheme "Bearer" with the given credentials.
    pub fn bearer(credentials: &str) -> (r: AuthenticationInfo)
        ensures
            r.scheme@ == "Bearer"@,
            r.credentials matches Some(c) && c@ == credentials@,
    {
        AuthenticationInfo::new("Bearer", credentials)
    }

    /// Sets the credentials; the scheme is kept.
    pub fn with_credentials(self, credentials: &str) -> (r: AuthenticationInfo)
        ensures
            r.scheme == self.scheme,
            r.credentials matches Some(c) && c@ == credentials@,
    {
        AuthenticationInfo { scheme: self.scheme, credentials: Some(credentials.to_owned()) }
    }

    /// The debug text, with the credentials redacted.
    pub open spec fn spec_debug_text(&self) -> Seq<char> {
        "AuthenticationInfo { scheme: "@ + debug_text(self.scheme@) + ", credentials: "@
            + redacted_opt_text(self.credentials is Some) + " }"@
    }

    /// The debug text, with the credentials redacted.
    pub fn debug_string(&self) -> (r: String)
        ensures
            r@ == self.spec_debug_text(),
    {
        let mut out = "AuthenticationInfo { scheme: ".to_owned();
        let s = debug_quoted(self.scheme.as_str());
        out.append(s.as_str());
        out.append(", credentials: ");
        push_redacted_opt(&mut out, self.credentials.is_some());
        out.append(" }");
        out
    }
}

/// A webhook configuration for a task's push notifications.
#[derive(Clone, PartialEq)]
pub struct TaskPushNotificationConfig {
    /// Tenant scope.
    pub tenant: Option<String>,
    /// Configuration id.
    pub id: Option<String>,
    /// The task notified about.
    pub task_id: Option<String>,
    /// The webhook URL.
    pub url: String,
    /// A token the agent sends back (secret).
    pub token: Option<String>,
    /// How the agent authenticates to the webhook.
    pub authentication: Option<AuthenticationInfo>,
}

impl TaskPushNotificationConfig {
    /// A configuration for a task and webhook URL.
    pub fn new(task_id: &str, url: &str) -> (r: TaskPushNotificationConfig)
        ensures
            r.task_id matches Some(t) && t@ == task_id@,
            r.url@ == url@,
            r.tenant is None && r.id is None && r.token is None && r.authentication is None,
    {
        TaskPushNotificationConfig {
            tenant: None,
            id: None,
            task_id: Some(task_id.to_owned()),
            url: url.to_owned(),
            token: None,
            authentication: None,
        }
    }

    /// A configuration with only a webhook URL (inside `SendMessageConfiguration`).
    pub fn for_url(url: &str) -> (r: TaskPushNotificationConfig)
        ensures
            r.url@ == url@,
            r.task_id is None && r.tenant is None && r.id is None && r.token is None && r.authentication is None,
    {
        TaskPushNotificationConfig { tenant: None, id: None, task_id: None, url: url.to_owned(), token: None, authentication: None }
    }

    /// Sets the task id; everything else is kept.
    pub fn with_task_id(self, task_id: &str) -> (r: TaskPushNotificationConfig)
        ensures
            r.task_id matches Some(t) && t@ == task_id@,
            r == (TaskPushNotificationConfig { task_id: r.task_id, ..self }),
    {
        TaskPushNotificationConfig { task_id: Some(task_id.to_owned()), ..self }
    }

    /// Sets the tenant; everything else is kept.
    pub fn with_tenant(self, tenant: &str) -> (r: TaskPushNotificationConfig)
        ensures
            r.tenant matches Some(t) && t@ == tenant@,
            r == (TaskPushNotificationConfig { tenant: r.tenant, ..self }),
    {
        TaskPushNotificationConfig { tenant: Some(tenant.to_owned()), ..self }
    }

    /// Sets the configuration id; everything else is kept.
    pub fn with_id(self, id: &str) -> (r: TaskPushNotificationConfig)
        ensures
            r.id matches Some(i) && i@ == id@,
            r == (TaskPushNotificationConfig { id: r.id, ..self }),
    {
        TaskPushNotificationConfig { id: Some(id.to_owned()), ..self }
    }

    /// Sets the token; everything else is kept.
    pub fn with_token(self, token: &str) -> (r: TaskPushNotificationConfig)
        ensures
            r.token matches Some(t) && t@ == token@,
            r == (TaskPushNotificationConfig { token: r.token, ..self }),
    {
        TaskPushNotificationConfig { token: Some(token.to_owned()), ..self }
    }

    /// Sets the authentication; everything else is kept.
    pub fn with_authentication(self, authentication: AuthenticationInfo) -> (r: TaskPushNotificationConfig)
        ensures
            r == (TaskPushNotificationConfig { authentication: Some(authentication), ..self }),
    {
        TaskPushNotificationConfig { authentication: Some(authentication), ..self }
    }

    /// The debug text, with the token and the credentials redacted.
    pub open spec fn spec_debug_text(&self) -> Seq<char> {
        "TaskPushNotificationConfig { tenant: "@ + debug_opt_text(self.tenant) + ", id: "@
            + debug_opt_text(self.id) + ", task_id: "@ + debug_opt_text(self.task_id) + ", url: "@
            + debug_text(self.url@) + ", token: "@ + redacted_opt_text(self.token is Some)
            + ", authentication: "@ + match self.authentication {
                Some(a) => "Some("@ + a.spec_debug_text() + ")"@,
                None => "None"@,
            } + " }"@
    }

    /// The debug text, with the token and the credentials redacted.
    pub fn debug_string(&self) -> (r: String)
        ensures
            r@ == self.spec_debug_text(),
    {
        let mut out = "TaskPushNotificationConfig { tenant: ".to_owned();
        push_debug_opt(&mut out, &self.tenant);
        out.append(", id: ");
        push_debug_opt(&mut out, &self.id);
        out.append(", task_id: ");
        push_debug_opt(&mut out, &self.task_id);
        out.append(", url: ");
        let u = debug_quoted(self.url.as_str());
        out.append(u.as_str());
        out.append(", token: ");
        push_redacted_opt(&mut out, self.token.is_some());
        out.append(", authentication: ");
        match &self.authentication {
            Some(a) => {
                out.append("Some(");
                let d = a.debug_string();
                out.append(d.as_str());
                out.append(")");
            },
            None => out.append("None"),
        }
        out.append(" }");
        out
    }
}

/// Credentials never reach the debug text: two authentication records with the
/// same scheme read the same whatever their credentials are, as long as both
/// or neither carry some.
pub proof fn lemma_debug_text_hides_credentials(a: AuthenticationInfo, b: AuthenticationInfo)
    requires
        a.scheme == b.scheme,
        a.credentials is Some <==> b.credentials is Some,
    ensures
        a.spec_debug_text() == b.spec_debug_text(),
{
}

/// Tokens and credentials never reach the debug text of a webhook
/// configuration: configurations that differ only in their token's or their
/// credentials' value read the same.
pub proof fn lemma_debug_text_hides_token(a: TaskPushNotificationConfig, b: TaskPushNotificationConfig)
    requires
        a.tenant == b.tenant,
        a.id == b.id,
        a.task_id == b.task_id,
        a.url == b.url,
        a.token is Some <==> b.token is Some,
        a.authentication is Some <==> b.authentication is Some,
        a.authentication is Some ==> a.authentication->0.scheme == b.authentication->0.scheme
            && (a.authentication->0.credentials is Some <==> b.authentication->0.credentials is Some),
    ensures
        a.spec_debug_text() == b.spec_debug_text(),
{
    if a.authentication is Some {
        lemma_debug_text_hides_credentials(a.authentication->0, b.authentication->0);
    }
}

/// Parameters for fetching a push notification configuration.
#[derive(Debug, Clone, PartialEq)]
pub struct GetTaskPushNotificationConfigParams {
    /// Tenant scope.
    pub tenant: Option<String>,
    /// The task.
    pub task_id: String,
    /// The configuration id.
    pub id: String,
}

impl GetTaskPushNotificationConfigParams {
    /// Parameters for a task and configuration id; no tenant.
    pub fn new(task_id: &str, id: &str) -> (r: GetTaskPushNotificationConfigParams)
        ensures
            r.task_id@ == task_id@ && r.id@ == id@ && r.tenant is None,
    {
        GetTaskPushNotificationConfigParams { tenant: None, task_id: task_id.to_owned(), id: id.to_owned() }
    }

    /// Sets the tenant; everything else is kept.
    pub fn with_tenant(self, tenant: &str) -> (r: GetTaskPushNotificationConfigParams)
        ensures
            r.tenant matches Some(t) && t@ == tenant@,
            r.task_id == self.task_id && r.id == self.id,
    {
        GetTaskPushNotificationConfigParams { tenant: Some(tenant.to_owned()), ..self }
    }
}

/// Parameters for listing a task's push notification configurations.
#[derive(Debug, Clone, PartialEq)]
pub struct ListTaskPushNotificationConfigsParams {
    /// Tenant scope.
    pub tenant: Option<String>,
    /// The task.
    pub task_id: String,
    /// Page size.
    pub page_size: Option<i32>,
    /// Page cursor.
    pub page_token: Option<String>,
}

impl ListTaskPushNotificationConfigsParams {
    /// Parameters for a task; no tenant, page size or cursor.
    pub fn new(task_id: &str) -> (r: ListTaskPushNotificationConfigsParams)
        ensures
            r.task_id@ == task_id@ && r.tenant is None && r.page_size is None && r.page_token is None,
    {
        ListTaskPushNotificationConfigsParams { tenant: None, task_id: task_id.to_owned(), page_size: None, page_token: None }
    }

    /// Sets the tenant; everything else is kept.
    pub fn with_tenant(self, tenant: &str) -> (r: ListTaskPushNotificationConfigsParams)
        ensures
            r.tenant matches Some(t) && t@ == tenant@,
            r == (ListTaskPushNotificationConfigsParams { tenant: r.tenant, ..self }),
    {
        ListTaskPushNotificationConfigsParams { tenant: Some(tenant.to_owned()), ..self }
    }

    /// Sets the page size; everything else is kept.
    pub fn with_page_size(self, page_size: i32) -> (r: ListTaskPushNotificationConfigsParams)
        ensures
            r == (ListTaskPushNotificationConfigsParams { page_size: Some(page_size), ..self }),
    {
        ListTaskPushNotificationConfigsParams { page_size: Some(page_size), ..self }
    }

    /// Sets the page cursor; everything else is kept.
    pub fn with_page_token(self, page_token: &str) -> (r: ListTaskPushNotificationConfigsParams)
        ensures
            r.page_token matches Some(t) && t@ == page_token@,
            r == (ListTaskPushNotificationConfigsParams { page_token: r.page_token, ..self }),
    {
        ListTaskPushNotificationConfigsParams { page_token: Some(page_token.to_owned()), ..self }
    }
}

/// Parameters for deleting a push notification configuration.
#[derive(Debug, Clone, PartialEq)]
pub struct DeleteTaskPushNotificationConfigParams {
    /// Tenant scope.
    pub tenant: Option<String>,
    /// The task.
    pub task_id: String,
    /// The configuration id.
    pub id: String,
}

impl DeleteTaskPushNotificationConfigParams {
    /// Parameters for a task and configuration id; no tenant.
    pub fn new(task_id: &str, id: &str) -> (r: DeleteTaskPushNotificationConfigParams)
        ensures
            r.task_id@ == task_id@ && r.id@ == id@ && r.tenant is None,
    {
        DeleteTaskPushNotificationConfigParams { tenant: None, task_id: task_id.to_owned(), id: id.to_owned() }
    }

    /// Sets the tenant; everything else is kept.
    pub fn with_tenant(self, tenant: &str) -> (r: DeleteTaskPushNotificationConfigParams)
        ensures
            r.tenant matches Some(t) && t@ == tenant@,
            r.task_id == self.task_id && r.id == self.id,
    {
        DeleteTaskPushNotificationConfigParams { tenant: Some(tenant.to_owned()), ..self }
    }
}

/// One page of a task's push notification configurations.
#[derive(Clone, PartialEq)]
pub struct ListTaskPushNotificationConfigsResponse {
    /// The configurations on this page.
    pub configs: Vec<TaskPushNotificationConfig>,
    /// Cursor of the next page; empty on the last page.
    pub next_page_token: String,
}

impl ListTaskPushNotificationConfigsResponse {
    /// Whether another page follows: the cursor is not empty.
    pub fn has_next_page(&self) -> (r: bool)
        ensures
            r == (self.next_page_token@.len() != 0),
    {
        !self.next_page_token.as_str().is_empty()
    }
}

} // verus!
