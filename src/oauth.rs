//! The sign-in provider's parameters and the state of a sign-in.
use vstd::prelude::*;

use crate::config::AuthConfig;

verus! {

/// The parameters of an OAuth2 provider, and the state of the sign-in
/// started with it, if any.
#[derive(Clone)]
pub struct OAuthProvider {
    pub auth_url: String,
    pub token_url: String,
    pub client_id: String,
    pub client_secret: String,
    pub redirect_url: String,
    pub state: Option<StateAuth>,
}

/// Where sign-in states are kept.
#[derive(Clone, Copy, Debug, PartialEq, Eq, Structural)]
pub enum MethodExecute {
    DB,
    MEMORY,
}

/// A started sign-in: the URL the user is sent to, the CSRF state and the
/// PKCE verifier.
#[derive(Clone, Debug)]
pub struct StateAuth {
    pub url_generated: Option<String>,
    pub state: String,
    pub verifier: String,
}

/// What the provider sends back to the redirect URL.
#[derive(Clone, Debug)]
pub struct OAuth2Callback {
    pub code: String,
    pub state: String,
}

impl OAuthProvider {
    /// A provider with the given parameters and no sign-in started.
    pub fn new(
        auth_url: String,
        token_url: String,
        client_id: String,
        client_secret: String,
        redirect_url: String,
    ) -> (r: Self)
        ensures
            r.auth_url == auth_url,
            r.token_url == token_url,
            r.client_id == client_id,
            r.client_secret == client_secret,
            r.redirect_url == redirect_url,
            r.state is None,
    {
        OAuthProvider { auth_url, token_url, client_id, client_secret, redirect_url, state: None }
    }
}

/// The provider that `cfg` describes, its secret taken out of the mask.
pub fn get_client(cfg: AuthConfig) -> (r: OAuthProvider)
    ensures
        r.auth_url == cfg.auth_url,
        r.token_url == cfg.token_url,
        r.client_id == cfg.client_id,
        r.client_secret@ == cfg.client_secret@,
        r.redirect_url == cfg.redirect_url,
        r.state is None,
{
    OAuthProvider::new(
        cfg.auth_url,
        cfg.token_url,
        cfg.client_id,
        cfg.client_secret.into_inner(),
        cfg.redirect_url,
    )
}

} // verus!
