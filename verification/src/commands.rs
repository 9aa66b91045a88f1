//! The stub commands of the surface: each one only notifies the frontend
//! collaborator (which holds the real provider and token state) and returns
//! a fixed placeholder. The collaborator answers through events of its own.

use vstd::prelude::*;
use crate::registry::OAuthLogoutRequest;
use crate::registry::OAuthProvider;
use crate::registry::OAuthStatus;

verus! {

/// Payload of the `oauth-status-requested` notification.
pub struct StatusRequestedNote {
    pub provider: String,
}

/// Payload of the `oauth-all-status-requested` notification.
pub struct AllStatusRequestedNote {}

/// Payload of the `oauth-logout-requested` notification.
pub struct LogoutRequestedNote {
    pub provider: String,
    pub revoke_tokens: bool,
}

/// Payload of the `oauth-providers-requested` notification.
pub struct ProvidersRequestedNote {}

/// Payload of the `oauth-refresh-requested` notification.
pub struct RefreshRequestedNote {
    pub provider: String,
}

/// Payload of the `oauth-config-validation-requested` notification.
pub struct ConfigValidationRequestedNote {}

/// Payload of the `oauth-config-status-requested` notification.
pub struct ConfigStatusRequestedNote {}

impl StatusRequestedNote {
    /// The event this payload is delivered under.
    pub fn event_name(&self) -> (r: &'static str)
        ensures
            r@ == "oauth-status-requested"@,
    {
        "oauth-status-requested"
    }
}

impl AllStatusRequestedNote {
    /// The event this payload is delivered under.
    pub fn event_name(&self) -> (r: &'static str)
        ensures
            r@ == "oauth-all-status-requested"@,
    {
        "oauth-all-status-requested"
    }
}

impl LogoutRequestedNote {
    /// The event this payload is delivered under.
    pub fn event_name(&self) -> (r: &'static str)
        ensures
            r@ == "oauth-logout-requested"@,
    {
        "oauth-logout-requested"
    }
}

impl ProvidersRequestedNote {
    /// The event this payload is delivered under.
    pub fn event_name(&self) -> (r: &'static str)
        ensures
            r@ == "oauth-providers-requested"@,
    {
        "oauth-providers-requested"
    }
}

impl RefreshRequestedNote {
    /// The event this payload is delivered under.
    pub fn event_name(&self) -> (r: &'static str)
        ensures
            r@ == "oauth-refresh-requested"@,
    {
        "oauth-refresh-requested"
    }
}

impl ConfigValidationRequestedNote {
    /// The event this payload is delivered under.
    pub fn event_name(&self) -> (r: &'static str)
        ensures
            r@ == "oauth-config-validation-requested"@,
    {
        "oauth-config-validation-requested"
    }
}

impl ConfigStatusRequestedNote {
    /// The event this payload is delivered under.
    pub fn event_name(&self) -> (r: &'static str)
        ensures
            r@ == "oauth-config-status-requested"@,
    {
        "oauth-config-status-requested"
    }
}

/// Asks the collaborator for a provider's status and returns the
/// unauthenticated placeholder; the real status arrives through events.
pub fn oauth_get_status(provider: String) -> (r: (OAuthStatus, StatusRequestedNote))
    ensures
        r.0.provider@ == provider@,
        !r.0.is_authenticated,
        r.0.expires_at is None,
        r.0.last_refresh is None,
        r.1.provider@ == provider@,
{
    let note = StatusRequestedNote { provider: provider.clone() };
    (
        OAuthStatus { provider, is_authenticated: false, expires_at: None, last_refresh: None },
        note,
    )
}

/// Asks the collaborator for every provider's status; the returned list is
/// empty, to be populated through events.
pub fn oauth_get_all_status() -> (r: (Vec<OAuthStatus>, AllStatusRequestedNote))
    ensures
        r.0@.len() == 0,
{
    (Vec::new(), AllStatusRequestedNote {  })
}

/// Hands a logout request to the collaborator.
pub fn oauth_logout(request: OAuthLogoutRequest) -> (r: (bool, LogoutRequestedNote))
    ensures
        r.0 == true,
        r.1.provider@ == request.provider@,
        r.1.revoke_tokens == request.revoke_tokens.unwrap_or(false),
{
    let revoke_tokens = request.revoke_tokens.unwrap_or(false);
    (true, LogoutRequestedNote { provider: request.provider, revoke_tokens })
}

/// Asks the collaborator for the provider list; the returned list is empty,
/// to be populated through events.
pub fn oauth_get_providers() -> (r: (Vec<OAuthProvider>, ProvidersRequestedNote))
    ensures
        r.0@.len() == 0,
{
    (Vec::new(), ProvidersRequestedNote {  })
}

/// Asks the collaborator to refresh a provider's tokens.
pub fn oauth_refresh_tokens(provider: String) -> (r: (bool, RefreshRequestedNote))
    ensures
        r.0 == true,
        r.1.provider@ == provider@,
{
    (true, RefreshRequestedNote { provider })
}

/// Asks the collaborator to validate the OAuth configuration.
pub fn oauth_validate_config() -> (r: (bool, ConfigValidationRequestedNote))
    ensures
        r.0 == true,
{
    (true, ConfigValidationRequestedNote {  })
}

/// Asks the collaborator for the configuration status; the returned mapping
/// is empty, to be populated through events.
pub fn oauth_get_config_status() -> (r: (Vec<(String, bool)>, ConfigStatusRequestedNote))
    ensures
        r.0@.len() == 0,
{
    (Vec::new(), ConfigStatusRequestedNote {  })
}

} // verus!
