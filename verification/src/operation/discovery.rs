//! Parameters of `GetExtendedAgentCard`.

use vstd::prelude::*;

verus! {

/// Parameters for fetching the extended agent card.
#[derive(Debug, Clone, PartialEq)]
pub struct GetExtendedAgentCardParams {
    /// Tenant scope.
    pub tenant: Option<String>,
}

impl GetExtendedAgentCardParams {
    /// Parameters without tenant.
    pub fn new() -> (r: GetExtendedAgentCardParams)
        ensures
            r.tenant is None,
    {
        GetExtendedAgentCardParams { tenant: None }
    }

    /// Sets the tenant.
    pub fn with_tenant(self, tenant: &str) -> (r: GetExtendedAgentCardParams)
        ensures
            r.tenant matches Some(t) && t@ == tenant@,
    {
        GetExtendedAgentCardParams { tenant: Some(tenant.to_owned()) }
    }
}

impl Default for GetExtendedAgentCardParams {
    /// The same as `new`.
    fn default() -> (r: GetExtendedAgentCardParams)
        ensures
            r.tenant is None,
    {
        GetExtendedAgentCardParams::new()
    }
}

} // verus!
