use vstd::prelude::*;

verus! {

/// Where the authorization service sends the user back to.
pub const REDIRECT_URI: &'static str = "http://localhost:8080/callback";

/// The client identifier used when none is configured.
pub const DEFAULT_CLIENT_ID: &'static str = "your_client_id";

/// The client secret used when none is configured.
pub const DEFAULT_CLIENT_SECRET: &'static str = "your_client_secret";

/// What the authorization service needs to hand out an authorization URL.
#[derive(Debug, Clone)]
pub struct AuthSettings {
    pub client_id: String,
    pub client_secret: String,
    pub redirect_uri: String,
}

/// A configured value, or the fallback where none is configured.
pub open spec fn configured_or(value: Option<String>, fallback: Seq<char>) -> Seq<char> {
    match value {
        Some(v) => v@,
        None => fallback,
    }
}

fn value_or(value: Option<String>, fallback: &str) -> (r: String)
    ensures
        r@ == configured_or(value, fallback@),
{
    match value {
        Some(v) => v,
        None => String::from_str(fallback),
    }
}

impl AuthSettings {
    /// The settings from the configured client identifier and secret, each
    /// falling back to a placeholder where it is not configured, with the
    /// fixed local redirect target.
    pub fn from_configured(client_id: Option<String>, client_secret: Option<String>) -> (r:
        AuthSettings)
        ensures
            r.client_id@ == configured_or(client_id, DEFAULT_CLIENT_ID@),
            r.client_secret@ == configured_or(client_secret, DEFAULT_CLIENT_SECRET@),
            r.redirect_uri@ == REDIRECT_URI@,
    {
        AuthSettings {
            client_id: value_or(client_id, DEFAULT_CLIENT_ID),
            client_secret: value_or(client_secret, DEFAULT_CLIENT_SECRET),
            redirect_uri: String::from_str(REDIRECT_URI),
        }
    }
}

} // verus!
