//! Security requirements and schemes of an agent card.

use std::collections::HashMap;

use vstd::prelude::*;
use vstd::std_specs::hash::obeys_key_model;

verus! {

/// A security requirement: scheme names mapped to the scopes they must grant.
#[derive(Debug, Clone, PartialEq)]
pub struct SecurityRequirement {
    /// Scheme name to required scopes.
    pub schemes: HashMap<String, StringList>,
}

/// A list of strings (the proto3 `StringList` message).
#[derive(Debug, Clone, PartialEq)]
pub struct StringList {
    /// The strings.
    pub list: Vec<String>,
}

/// Whether `list` holds, in order, the texts of `scopes`.
pub open spec fn same_texts(list: Seq<String>, scopes: Seq<&str>) -> bool {
    &&& list.len() == scopes.len()
    &&& forall|i: int| 0 <= i < list.len() ==> #[trigger] list[i]@ == scopes[i]@
}

/// Owned copies of some string slices, in order.
pub fn owned_texts(scopes: &[&str]) -> (r: Vec<String>)
    ensures
        same_texts(r@, scopes@),
{
    let mut out: Vec<String> = Vec::new();
    let mut i: usize = 0;
    while i < scopes.len()
        invariant
            i <= scopes@.len(),
            out@.len() == i,
            forall|j: int| 0 <= j < i ==> #[trigger] out@[j]@ == scopes@[j]@,
        decreases scopes@.len() - i,
    {
        out.push(scopes[i].to_owned());
        i = i + 1;
    }
    out
}

impl SecurityRequirement {
    /// A requirement from a map of scheme names to scope lists.
    pub fn new(schemes: HashMap<String, StringList>) -> (r: SecurityRequirement)
        ensures
            r.schemes@ == schemes@,
    {
        SecurityRequirement { schemes }
    }

    /// A requirement naming a single scheme with the given scopes, in order.
    pub fn from_scheme(name: &str, scopes: &[&str]) -> (r: SecurityRequirement)
        ensures
            obeys_key_model::<String>() ==> exists|k: String, l: StringList| k@ == name@
                && same_texts(l.list@, scopes@)
                && r.schemes@ == Map::<String, StringList>::empty().insert(k, l),
    {
        let mut schemes: HashMap<String, StringList> = HashMap::new();
        let key = name.to_owned();
        let list = StringList { list: owned_texts(scopes) };
        schemes.insert(key, list);
        SecurityRequirement { schemes }
    }
}

impl StringList {
    /// A string list holding `list`.
    pub fn new(list: Vec<String>) -> (r: StringList)
        ensures
            r.list == list,
    {
        StringList { list }
    }
}

/// An authentication method the agent accepts.
#[derive(Debug, Clone, PartialEq)]
pub enum SecurityScheme {
    /// API key in a header or query parameter.
    ApiKey {
        /// The header or query parameter name.
        name: String,
        /// "header" or "query".
        location: String,
        /// Human-readable description.
        description: Option<String>,
    },
    /// HTTP authentication (bearer, basic, ...).
    Http {
        /// The HTTP auth scheme.
        scheme: String,
        /// Hint about the token format.
        bearer_format: Option<String>,
        /// Human-readable description.
        description: Option<String>,
    },
    /// OAuth 2.0 flows.
    OAuth2 {
        /// The supported flows.
        flows: Box<OAuthFlows>,
        /// Human-readable description.
        description: Option<String>,
        /// URL of the OAuth2 server metadata document.
        oauth2_metadata_url: Option<String>,
    },
    /// OpenID Connect discovery.
    OpenIdConnect {
        /// The discovery endpoint URL.
        open_id_connect_url: String,
        /// Human-readable description.
        description: Option<String>,
    },
    /// Mutual TLS.
    MutualTls {
        /// Human-readable description.
        description: Option<String>,
    },
}

impl SecurityScheme {
    /// The description of any variant.
    pub open spec fn spec_description(&self) -> Option<String> {
        match self {
            SecurityScheme::ApiKey { description, .. } => *description,
            SecurityScheme::Http { description, .. } => *description,
            SecurityScheme::OAuth2 { description, .. } => *description,
            SecurityScheme::OpenIdConnect { description, .. } => *description,
            SecurityScheme::MutualTls { description } => *description,
        }
    }

    /// Whether two schemes are the same variant with the same fields, the
    /// description aside.
    pub open spec fn same_but_description(&self, other: &SecurityScheme) -> bool {
        match (self, other) {
            (SecurityScheme::ApiKey { name: a, location: b, .. }, SecurityScheme::ApiKey { name: c, location: d, .. }) =>
                a == c && b == d,
            (SecurityScheme::Http { scheme: a, bearer_format: b, .. }, SecurityScheme::Http { scheme: c, bearer_format: d, .. }) =>
                a == c && b == d,
            (SecurityScheme::OAuth2 { flows: a, oauth2_metadata_url: b, .. }, SecurityScheme::OAuth2 { flows: c, oauth2_metadata_url: d, .. }) =>
                a == c && b == d,
            (SecurityScheme::OpenIdConnect { open_id_connect_url: a, .. }, SecurityScheme::OpenIdConnect { open_id_connect_url: c, .. }) =>
                a == c,
            (SecurityScheme::MutualTls { .. }, SecurityScheme::MutualTls { .. }) => true,
            _ => false,
        }
    }

    /// An API key scheme without description.
    pub fn api_key(name: &str, location: &str) -> (r: SecurityScheme)
        ensures
            r matches SecurityScheme::ApiKey { name: n, location: l, description: d }
                && n@ == name@ && l@ == location@ && d is None,
    {
        SecurityScheme::ApiKey { name: name.to_owned(), location: location.to_owned(), description: None }
    }

    /// An HTTP scheme without bearer format or description.
    pub fn http(scheme: &str) -> (r: SecurityScheme)
        ensures
            r matches SecurityScheme::Http { scheme: s, bearer_format: b, description: d }
                && s@ == scheme@ && b is None && d is None,
    {
        SecurityScheme::Http { scheme: scheme.to_owned(), bearer_format: None, description: None }
    }

    /// An OAuth2 scheme with the given flows, without description or metadata URL.
    pub fn oauth2(flows: OAuthFlows) -> (r: SecurityScheme)
        ensures
            r matches SecurityScheme::OAuth2 { flows: f, description: d, oauth2_metadata_url: u }
                && *f == flows && d is None && u is None,
    {
        SecurityScheme::OAuth2 { flows: Box::new(flows), description: None, oauth2_metadata_url: None }
    }

    /// An OpenID Connect scheme without description.
    pub fn openid_connect(url: &str) -> (r: SecurityScheme)
        ensures
            r matches SecurityScheme::OpenIdConnect { open_id_connect_url: u, description: d }
                && u@ == url@ && d is None,
    {
        SecurityScheme::OpenIdConnect { open_id_connect_url: url.to_owned(), description: None }
    }

    /// A mutual TLS scheme without description.
    pub fn mutual_tls() -> (r: SecurityScheme)
        ensures
            r == (SecurityScheme::MutualTls { description: None }),
    {
        SecurityScheme::MutualTls { description: None }
    }

    /// Sets the description of any variant; everything else is kept.
    pub fn with_description(self, description: &str) -> (r: SecurityScheme)
        ensures
            r.spec_description() matches Some(d) && d@ == description@,
            r.same_but_description(&self),
    {
        let d = Some(description.to_owned());
        match self {
            SecurityScheme::ApiKey { name, location, .. } => SecurityScheme::ApiKey { name, location, description: d },
            SecurityScheme::Http { scheme, bearer_format, .. } => SecurityScheme::Http { scheme, bearer_format, description: d },
            SecurityScheme::OAuth2 { flows, oauth2_metadata_url, .. } =>
                SecurityScheme::OAuth2 { flows, description: d, oauth2_metadata_url },
            SecurityScheme::OpenIdConnect { open_id_connect_url, .. } =>
                SecurityScheme::OpenIdConnect { open_id_connect_url, description: d },
            SecurityScheme::MutualTls { .. } => SecurityScheme::MutualTls { description: d },
        }
    }

    /// Sets the bearer format of an HTTP scheme; other variants are returned unchanged.
    pub fn with_bearer_format(self, format: &str) -> (r: SecurityScheme)
        ensures
            self is Http ==> (r matches SecurityScheme::Http { scheme: s, bearer_format: b, description: d }
                && (b matches Some(f) && f@ == format@)
                && (self matches SecurityScheme::Http { scheme: s0, description: d0, .. } && s == s0 && d == d0)),
            !(self is Http) ==> r == self,
    {
        match self {
            SecurityScheme::Http { scheme, description, .. } =>
                SecurityScheme::Http { scheme, bearer_format: Some(format.to_owned()), description },
            other => other,
        }
    }

    /// Sets the metadata URL of an OAuth2 scheme; other variants are returned unchanged.
    pub fn with_oauth2_metadata_url(self, url: &str) -> (r: SecurityScheme)
        ensures
            self is OAuth2 ==> (r matches SecurityScheme::OAuth2 { flows: f, description: d, oauth2_metadata_url: u }
                && (u matches Some(x) && x@ == url@)
                && (self matches SecurityScheme::OAuth2 { flows: f0, description: d0, .. } && f == f0 && d == d0)),
            !(self is OAuth2) ==> r == self,
    {
        match self {
            SecurityScheme::OAuth2 { flows, description, .. } =>
                SecurityScheme::OAuth2 { flows, description, oauth2_metadata_url: Some(url.to_owned()) },
            other => other,
        }
    }
}

/// OAuth 2.0 flow definitions.
#[derive(Debug, Clone, PartialEq)]
pub struct OAuthFlows {
    /// Authorization code flow.
    pub authorization_code: Option<AuthorizationCodeOAuthFlow>,
    /// Client credentials flow.
    pub client_credentials: Option<ClientCredentialsOAuthFlow>,
    /// Device code flow.
    pub device_code: Option<DeviceCodeOAuthFlow>,
    /// Implicit flow (deprecated; kept so such cards can be read).
    pub implicit: Option<ImplicitOAuthFlow>,
    /// Password flow (deprecated; kept so such cards can be read).
    pub password: Option<PasswordOAuthFlow>,
}

impl Default for OAuthFlows {
    /// No flow defined.
    fn default() -> (r: OAuthFlows)
        ensures
            r.authorization_code is None && r.client_credentials is None && r.device_code is None,
            r.implicit is None && r.password is None,
    {
        OAuthFlows { authorization_code: None, client_credentials: None, device_code: None, implicit: None, password: None }
    }
}

impl OAuthFlows {
    /// Sets the authorization code flow; everything else is kept.
    pub fn with_authorization_code(self, flow: AuthorizationCodeOAuthFlow) -> (r: OAuthFlows)
        ensures
            r == (OAuthFlows { authorization_code: Some(flow), ..self }),
    {
        OAuthFlows { authorization_code: Some(flow), ..self }
    }

    /// Sets the client credentials flow; everything else is kept.
    pub fn with_client_credentials(self, flow: ClientCredentialsOAuthFlow) -> (r: OAuthFlows)
        ensures
            r == (OAuthFlows { client_credentials: Some(flow), ..self }),
    {
        OAuthFlows { client_credentials: Some(flow), ..self }
    }

    /// Sets the device code flow; everything else is kept.
    pub fn with_device_code(self, flow: DeviceCodeOAuthFlow) -> (r: OAuthFlows)
        ensures
            r == (OAuthFlows { device_code: Some(flow), ..self }),
    {
        OAuthFlows { device_code: Some(flow), ..self }
    }
}

/// Authorization code OAuth flow.
#[derive(Debug, Clone, PartialEq)]
pub struct AuthorizationCodeOAuthFlow {
    /// Where the person is sent to authorize.
    pub authorization_url: String,
    /// Where the code is exchanged for a token.
    pub token_url: String,
    /// Where expired tokens are refreshed.
    pub refresh_url: Option<String>,
    /// Whether PKCE is required.
    pub pkce_required: Option<bool>,
    /// Scope name to description.
    pub scopes: HashMap<String, String>,
}

impl AuthorizationCodeOAuthFlow {
    /// A flow with its endpoints and scopes; no refresh URL, PKCE unspecified.
    pub fn new(authorization_url: &str, token_url: &str, scopes: HashMap<String, String>) -> (r: AuthorizationCodeOAuthFlow)
        ensures
            r.authorization_url@ == authorization_url@ && r.token_url@ == token_url@,
            r.refresh_url is None && r.pkce_required is None && r.scopes@ == scopes@,
    {
        AuthorizationCodeOAuthFlow {
            authorization_url: authorization_url.to_owned(),
            token_url: token_url.to_owned(),
            refresh_url: None,
            pkce_required: None,
            scopes,
        }
    }

    /// Sets the refresh URL; everything else is kept.
    pub fn with_refresh_url(self, url: &str) -> (r: AuthorizationCodeOAuthFlow)
        ensures
            r.refresh_url matches Some(u) && u@ == url@,
            r == (AuthorizationCodeOAuthFlow { refresh_url: r.refresh_url, ..self }),
    {
        AuthorizationCodeOAuthFlow { refresh_url: Some(url.to_owned()), ..self }
    }

    /// Sets whether PKCE is required; everything else is kept.
    pub fn with_pkce_required(self, pkce_required: bool) -> (r: AuthorizationCodeOAuthFlow)
        ensures
            r == (AuthorizationCodeOAuthFlow { pkce_required: Some(pkce_required), ..self }),
    {
        AuthorizationCodeOAuthFlow { pkce_required: Some(pkce_required), ..self }
    }
}

/// Client credentials OAuth flow.
#[derive(Debug, Clone, PartialEq)]
pub struct ClientCredentialsOAuthFlow {
    /// Where an access token is requested.
    pub token_url: String,
    /// Where expired tokens are refreshed.
    pub refresh_url: Option<String>,
    /// Scope name to description.
    pub scopes: HashMap<String, String>,
}

impl ClientCredentialsOAuthFlow {
    /// A flow with its token URL and scopes; no refresh URL.
    pub fn new(token_url: &str, scopes: HashMap<String, String>) -> (r: ClientCredentialsOAuthFlow)
        ensures
            r.token_url@ == token_url@ && r.refresh_url is None && r.scopes@ == scopes@,
    {
        ClientCredentialsOAuthFlow { token_url: token_url.to_owned(), refresh_url: None, scopes }
    }

    /// Sets the refresh URL; everything else is kept.
    pub fn with_refresh_url(self, url: &str) -> (r: ClientCredentialsOAuthFlow)
        ensures
            r.refresh_url matches Some(u) && u@ == url@,
            r == (ClientCredentialsOAuthFlow { refresh_url: r.refresh_url, ..self }),
    {
        ClientCredentialsOAuthFlow { refresh_url: Some(url.to_owned()), ..self }
    }
}

/// Device code OAuth flow.
#[derive(Debug, Clone, PartialEq)]
pub struct DeviceCodeOAuthFlow {
    /// Where a device code is requested.
    pub device_authorization_url: String,
    /// Where the device polls for the token.
    pub token_url: String,
    /// Where expired tokens are refreshed.
    pub refresh_url: Option<String>,
    /// Scope name to description.
    pub scopes: HashMap<String, String>,
}

impl DeviceCodeOAuthFlow {
    /// A flow with its endpoints and scopes; no refresh URL.
    pub fn new(device_authorization_url: &str, token_url: &str, scopes: HashMap<String, String>) -> (r: DeviceCodeOAuthFlow)
        ensures
            r.device_authorization_url@ == device_authorization_url@ && r.token_url@ == token_url@,
            r.refresh_url is None && r.scopes@ == scopes@,
    {
        DeviceCodeOAuthFlow {
            device_authorization_url: device_authorization_url.to_owned(),
            token_url: token_url.to_owned(),
            refresh_url: None,
            scopes,
        }
    }

    /// Sets the refresh URL; everything else is kept.
    pub fn with_refresh_url(self, url: &str) -> (r: DeviceCodeOAuthFlow)
        ensures
            r.refresh_url matches Some(u) && u@ == url@,
            r == (DeviceCodeOAuthFlow { refresh_url: r.refresh_url, ..self }),
    {
        DeviceCodeOAuthFlow { refresh_url: Some(url.to_owned()), ..self }
    }
}

/// Implicit OAuth flow (deprecated).
#[derive(Debug, Clone, PartialEq)]
pub struct ImplicitOAuthFlow {
    /// The authorization endpoint URL.
    pub authorization_url: String,
    /// The token refresh endpoint URL.
    pub refresh_url: Option<String>,
    /// Scope name to description.
    pub scopes: HashMap<String, String>,
}

/// Resource owner password credentials OAuth flow (deprecated).
#[derive(Debug, Clone, PartialEq)]
pub struct PasswordOAuthFlow {
    /// The token endpoint URL.
    pub token_url: String,
    /// The token refresh endpoint URL.
    pub refresh_url: Option<String>,
    /// Scope name to description.
    pub scopes: HashMap<String, String>,
}

} // verus!
