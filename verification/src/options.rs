//! Client options and the defaulting rules applied before a client is built.
//!
//! The embedding code hands over a [`ClientOptions`] record; the binding
//! resolves it into a [`ResolvedClientOptions`] value in which every optional
//! knob has its documented default filled in.  Building the actual network
//! client from the resolved value is connection work and stays outside the
//! verified core.

use vstd::prelude::*;

verus! {

/// Options accepted from the embedding code when a client is constructed.
#[derive(Clone, Debug)]
pub struct ClientOptions {
    /// Server address list, e.g. `address:port[,address:port...]`.
    pub server_addr: String,
    /// Namespace / tenant.
    pub namespace: String,
    /// Application name.
    pub app_name: Option<String>,
    /// Username for auth, login over http with a token.
    pub username: Option<String>,
    /// Password for auth, login over http with a token.
    pub password: Option<String>,
    /// Access key for the alternate (key/secret) auth scheme.
    pub access_key: Option<String>,
    /// Access secret for the alternate (key/secret) auth scheme.
    pub access_secret: Option<String>,
    /// Signature region id for the alternate (key/secret) auth scheme.
    pub signature_region_id: Option<String>,
    /// Protect subscribers against empty instance pushes; defaults to true.
    pub naming_push_empty_protection: Option<bool>,
    /// Load the local naming cache at start; defaults to false.
    pub naming_load_cache_at_start: Option<bool>,
}

/// Client options with every default filled in, ready to configure a client.
#[derive(Clone, Debug)]
pub struct ResolvedClientOptions {
    /// Server address list, copied verbatim.
    pub server_addr: String,
    /// Namespace / tenant, copied verbatim.
    pub namespace: String,
    /// Application name; the placeholder name when none was given.
    pub app_name: String,
    /// Whether http token auth is to be enabled: set exactly when both a
    /// username and a password were given.
    pub auth_enabled: bool,
    /// Username, passed through verbatim.
    pub username: Option<String>,
    /// Password, passed through verbatim.
    pub password: Option<String>,
    /// Empty-push protection with its default of true applied.
    pub naming_push_empty_protection: bool,
    /// Cache-at-start with its default of false applied.
    pub naming_load_cache_at_start: bool,
}

/// The application name used when the embedding code names none.
pub open spec fn default_app_name() -> Seq<char> {
    "unknown"@
}

/// Fills in every default the construction path applies to its options:
/// the placeholder application name, auth enabled exactly when both
/// credentials are present, empty-push protection on by default and
/// cache-at-start off by default.  Everything else is copied verbatim.
pub fn resolve_client_options(options: ClientOptions) -> (r: ResolvedClientOptions)
    ensures
        r.server_addr == options.server_addr,
        r.namespace == options.namespace,
        options.app_name matches Some(name) ==> r.app_name == name,
        options.app_name is None ==> r.app_name@ == default_app_name(),
        r.auth_enabled == (options.username is Some && options.password is Some),
        r.username == options.username,
        r.password == options.password,
        options.naming_push_empty_protection matches Some(p)
            ==> r.naming_push_empty_protection == p,
        options.naming_push_empty_protection is None ==> r.naming_push_empty_protection,
        options.naming_load_cache_at_start matches Some(l)
            ==> r.naming_load_cache_at_start == l,
        options.naming_load_cache_at_start is None ==> !r.naming_load_cache_at_start,
{
    let app_name = match options.app_name {
        Some(name) => name,
        None => "unknown".to_owned(),
    };
    let auth_enabled = options.username.is_some() && options.password.is_some();
    let naming_push_empty_protection = match options.naming_push_empty_protection {
        Some(p) => p,
        None => true,
    };
    let naming_load_cache_at_start = match options.naming_load_cache_at_start {
        Some(l) => l,
        None => false,
    };
    ResolvedClientOptions {
        server_addr: options.server_addr,
        namespace: options.namespace,
        app_name,
        auth_enabled,
        username: options.username,
        password: options.password,
        naming_push_empty_protection,
        naming_load_cache_at_start,
    }
}

} // verus!
