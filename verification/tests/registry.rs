use oauth_core::OAuthAuthRequest;
use oauth_core::OAuthManagerState;
use oauth_core::OAuthResult;
use oauth_core::OAuthLogoutRequest;
use oauth_core::oauth_get_all_status;
use oauth_core::oauth_get_config_status;
use oauth_core::oauth_get_providers;
use oauth_core::oauth_get_status;
use oauth_core::oauth_logout;
use oauth_core::oauth_refresh_tokens;
use oauth_core::oauth_validate_config;

fn auth_request(provider: &str) -> OAuthAuthRequest {
    OAuthAuthRequest { provider: provider.to_string(), force_reauth: None }
}

fn ok_result(provider: &str) -> OAuthResult {
    OAuthResult {
        success: true,
        provider: provider.to_string(),
        tokens: None,
        error: None,
        error_description: None,
    }
}

#[test]
fn begin_flow_is_immediately_retrievable() {
    let mut state = OAuthManagerState::default();
    let (id, note) = state.oauth_authenticate(&auth_request("github"), 1_000);
    assert_eq!(id.len(), 36);
    assert_eq!(note.flow_id, id);
    assert_eq!(note.provider, "github");
    assert!(!note.force_reauth);
    assert_eq!(state.oauth_get_flow_status(&id), Some("initiated".to_string()));
}

#[test]
fn begin_flow_ids_are_distinct() {
    let mut state = OAuthManagerState::default();
    let (id1, _) = state.oauth_authenticate(&auth_request("github"), 1);
    let (id2, _) = state.oauth_authenticate(&auth_request("github"), 2);
    let (id3, _) = state.oauth_authenticate(&auth_request("gitlab"), 3);
    assert_ne!(id1, id2);
    assert_ne!(id1, id3);
    assert_ne!(id2, id3);
    assert_eq!(state.oauth_get_flow_status(&id1), Some("initiated".to_string()));
    assert_eq!(state.oauth_get_flow_status(&id2), Some("initiated".to_string()));
    assert_eq!(state.oauth_get_flow_status(&id3), Some("initiated".to_string()));
    assert_eq!(state.active_flows.len(), 3);
}

#[test]
fn force_reauth_is_passed_through() {
    let mut state = OAuthManagerState::default();
    let request = OAuthAuthRequest { provider: "github".to_string(), force_reauth: Some(true) };
    let (_, note) = state.oauth_authenticate(&request, 0);
    assert!(note.force_reauth);
}

#[test]
fn update_unknown_id_is_a_silent_noop() {
    let mut state = OAuthManagerState::default();
    let (id, _) = state.oauth_authenticate(&auth_request("github"), 0);
    let ghost_id = "no-such-flow".to_string();
    state.oauth_update_flow_status(&ghost_id, "exchanging".to_string());
    assert_eq!(state.oauth_get_flow_status(&ghost_id), None);
    assert_eq!(state.active_flows.len(), 1);
    assert_eq!(state.oauth_get_flow_status(&id), Some("initiated".to_string()));
}

#[test]
fn update_known_id_overwrites_status() {
    let mut state = OAuthManagerState::default();
    let (id, _) = state.oauth_authenticate(&auth_request("github"), 0);
    state.oauth_update_flow_status(&id, "exchanging".to_string());
    assert_eq!(state.oauth_get_flow_status(&id), Some("exchanging".to_string()));
    state.oauth_update_flow_status(&id, "done".to_string());
    assert_eq!(state.oauth_get_flow_status(&id), Some("done".to_string()));
    assert_eq!(state.active_flows.len(), 1);
}

#[test]
fn complete_flow_removes_and_is_idempotent() {
    let mut state = OAuthManagerState::default();
    let (id, _) = state.oauth_authenticate(&auth_request("github"), 0);
    let note = state.oauth_complete_flow(id.clone(), ok_result("github"));
    assert_eq!(note.flow_id, id);
    assert!(note.result.success);
    assert_eq!(note.result.provider, "github");
    assert_eq!(state.oauth_get_flow_status(&id), None);
    let note2 = state.oauth_complete_flow(id.clone(), ok_result("github"));
    assert_eq!(note2.flow_id, id);
    assert_eq!(state.oauth_get_flow_status(&id), None);
    assert_eq!(state.active_flows.len(), 0);
}

#[test]
fn complete_unknown_flow_still_notifies() {
    let mut state = OAuthManagerState::default();
    let note = state.oauth_complete_flow("never-begun".to_string(), ok_result("github"));
    assert_eq!(note.flow_id, "never-begun");
    assert_eq!(state.active_flows.len(), 0);
}

#[test]
fn report_error_with_flow_id_removes_flow() {
    let mut state = OAuthManagerState::default();
    let (id, _) = state.oauth_authenticate(&auth_request("github"), 0);
    let note = state.oauth_handle_error(
        Some(id.clone()),
        "access_denied".to_string(),
        Some("user cancelled".to_string()),
    );
    assert_eq!(note.flow_id, Some(id.clone()));
    assert_eq!(note.error, "access_denied");
    assert_eq!(note.error_description, Some("user cancelled".to_string()));
    assert_eq!(state.oauth_get_flow_status(&id), None);
    assert_eq!(state.oauth_get_last_error(), Some("access_denied".to_string()));
}

#[test]
fn report_error_without_flow_id_leaves_table_untouched() {
    let mut state = OAuthManagerState::default();
    let (id, _) = state.oauth_authenticate(&auth_request("github"), 0);
    let note = state.oauth_handle_error(None, "server_error".to_string(), None);
    assert_eq!(note.flow_id, None);
    assert_eq!(state.oauth_get_flow_status(&id), Some("initiated".to_string()));
    assert_eq!(state.active_flows.len(), 1);
    assert_eq!(state.oauth_get_last_error(), Some("server_error".to_string()));
}

#[test]
fn last_error_is_overwritten_not_appended() {
    let mut state = OAuthManagerState::default();
    state.oauth_handle_error(None, "first".to_string(), None);
    state.oauth_handle_error(None, "second".to_string(), None);
    assert_eq!(state.oauth_get_last_error(), Some("second".to_string()));
}

#[test]
fn clear_errors_yields_absent() {
    let mut state = OAuthManagerState::default();
    state.oauth_handle_error(None, "boom".to_string(), None);
    state.oauth_clear_errors();
    assert_eq!(state.oauth_get_last_error(), None);
}

#[test]
fn fresh_registry_is_empty() {
    let state = OAuthManagerState::default();
    assert_eq!(state.active_flows.len(), 0);
    assert_eq!(state.oauth_get_last_error(), None);
}

#[test]
fn registry_event_names() {
    let mut state = OAuthManagerState::default();
    let (id, started) = state.oauth_authenticate(&auth_request("github"), 0);
    assert_eq!(started.event_name(), "oauth-flow-started");
    let completed = state.oauth_complete_flow(id, ok_result("github"));
    assert_eq!(completed.event_name(), "oauth-flow-completed");
    let err = state.oauth_handle_error(None, "e".to_string(), None);
    assert_eq!(err.event_name(), "oauth-error");
}

#[test]
fn get_status_returns_unauthenticated_placeholder() {
    let (status, note) = oauth_get_status("github".to_string());
    assert_eq!(status.provider, "github");
    assert!(!status.is_authenticated);
    assert_eq!(status.expires_at, None);
    assert_eq!(status.last_refresh, None);
    assert_eq!(note.provider, "github");
    assert_eq!(note.event_name(), "oauth-status-requested");
}

#[test]
fn get_all_status_returns_empty() {
    let (all, note) = oauth_get_all_status();
    assert!(all.is_empty());
    assert_eq!(note.event_name(), "oauth-all-status-requested");
}

#[test]
fn logout_notifies_and_succeeds() {
    let request = OAuthLogoutRequest { provider: "github".to_string(), revoke_tokens: Some(true) };
    let (ok, note) = oauth_logout(request);
    assert!(ok);
    assert_eq!(note.provider, "github");
    assert!(note.revoke_tokens);
    assert_eq!(note.event_name(), "oauth-logout-requested");
}

#[test]
fn providers_and_config_stubs() {
    let (providers, pnote) = oauth_get_providers();
    assert!(providers.is_empty());
    assert_eq!(pnote.event_name(), "oauth-providers-requested");
    let (ok, rnote) = oauth_refresh_tokens("github".to_string());
    assert!(ok);
    assert_eq!(rnote.provider, "github");
    assert_eq!(rnote.event_name(), "oauth-refresh-requested");
    let (valid, vnote) = oauth_validate_config();
    assert!(valid);
    assert_eq!(vnote.event_name(), "oauth-config-validation-requested");
    let (config, cnote) = oauth_get_config_status();
    assert!(config.is_empty());
    assert_eq!(cnote.event_name(), "oauth-config-status-requested");
}
