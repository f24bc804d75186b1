//! The auth bridge: how caller-supplied auth settings drive the backend's
//! auth state.
//!
//! A caller either supplies a static token (managing refresh itself) or
//! installs a token-provider capability that the backend consults on first
//! connect and on every reconnect. Installing either supersedes the other's
//! effect going forward; passing neither clears any previous setting and
//! returns the client to the logged-out state.

use vstd::prelude::*;

verus! {

/// A foreign "fetch a token" capability. Implemented outside this crate by
/// the caller; shared with whichever background task invokes it.
pub trait AuthTokenProvider: Send + Sync {
    /// Fetches a fresh OpenID Connect ID token. `force_refresh` is set when
    /// the backend reconnects and a previously supplied token may have
    /// expired. Returns the token, `None` to report a logged-out user, or
    /// an error message on failure.
    fn fetch_token(&self, force_refresh: bool) -> Result<Option<String>, String>;
}

/// One auth setting supplied by the caller. `P` is the provider capability.
pub enum AuthSetting<P> {
    /// A static token (`None` clears it: logged out).
    UseToken(Option<String>),
    /// A token provider (`None` clears it: logged out).
    UseProvider(Option<P>),
}

/// The auth state the bridge asks of the backend.
pub enum AuthPhase<P> {
    /// No token is associated: a logged-out client.
    LoggedOut,
    /// A caller-managed static token is associated.
    StaticToken(String),
    /// The installed provider is consulted on connect and on reconnect.
    Managed(P),
}

/// Applies one auth setting. The new phase depends on the setting alone:
/// whichever path was in effect before, a token supersedes a provider and a
/// provider supersedes a token, and clearing either leaves the client
/// logged out for subsequent calls.
pub fn apply_auth_setting<P>(setting: AuthSetting<P>) -> (next: AuthPhase<P>)
    ensures
        setting matches AuthSetting::UseToken(Some(t)) ==> (next matches AuthPhase::StaticToken(t2)
            && t2 == t),
        setting matches AuthSetting::UseToken(None::<String>) ==> next is LoggedOut,
        setting matches AuthSetting::UseProvider(Some(p)) ==> (next matches AuthPhase::Managed(p2)
            && p2 == p),
        setting matches AuthSetting::UseProvider(None::<P>) ==> next is LoggedOut,
{
    match setting {
        AuthSetting::UseToken(Some(t)) => AuthPhase::StaticToken(t),
        AuthSetting::UseToken(None) => AuthPhase::LoggedOut,
        AuthSetting::UseProvider(Some(p)) => AuthPhase::Managed(p),
        AuthSetting::UseProvider(None) => AuthPhase::LoggedOut,
    }
}

/// What the bridge tells the backend after one invocation of the token
/// provider.
pub enum TokenDecision {
    /// Associate the fetched token: a logged-in user.
    Authenticate { token: String },
    /// The provider reported no user: return to the logged-out state.
    LogOut,
    /// The fetch failed; surfaces as an internal error.
    Fail { message: String },
}

/// Decides what a token fetch outcome means for the backend's auth state:
/// a token authenticates, `None` logs out, and a failure is propagated.
pub fn decide_token(fetched: Result<Option<String>, String>) -> (d: TokenDecision)
    ensures
        fetched matches Ok(Some(t)) ==> (d matches TokenDecision::Authenticate { token } && token
            == t),
        fetched matches Ok(None::<String>) ==> d is LogOut,
        fetched matches Err(m) ==> (d matches TokenDecision::Fail { message } && message == m),
{
    match fetched {
        Ok(Some(t)) => TokenDecision::Authenticate { token: t },
        Ok(None) => TokenDecision::LogOut,
        Err(m) => TokenDecision::Fail { message: m },
    }
}

} // verus!
