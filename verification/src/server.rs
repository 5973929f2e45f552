//! Server-side logic: the per-request context handed to handlers and the
//! routing of JSON-RPC methods.

pub mod context;
pub mod dispatch;
