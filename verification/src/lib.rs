//! Core of a desktop application's OAuth authorization-code callback backend:
//! a registry of in-flight authorization flows with a single last-error slot,
//! and the pure logic of a transient local HTTP listener that captures the
//! provider redirect and hands the parsed query parameters to a notification
//! sink.

pub mod commands;
pub mod digits;
pub mod http;
pub mod listener;
pub mod params;
pub mod registry;

pub use commands::AllStatusRequestedNote;
pub use commands::ConfigStatusRequestedNote;
pub use commands::ConfigValidationRequestedNote;
pub use commands::LogoutRequestedNote;
pub use commands::ProvidersRequestedNote;
pub use commands::RefreshRequestedNote;
pub use commands::StatusRequestedNote;
pub use commands::oauth_get_all_status;
pub use commands::oauth_get_config_status;
pub use commands::oauth_get_providers;
pub use commands::oauth_get_status;
pub use commands::oauth_logout;
pub use commands::oauth_refresh_tokens;
pub use commands::oauth_validate_config;
pub use digits::u64_to_dec;
pub use http::bind_address;
pub use http::callback_url;
pub use http::confirmation_page;
pub use http::http_ok_response;
pub use listener::CallbackNote;
pub use listener::ConnectionEvent;
pub use listener::ListenerPhase;
pub use listener::handle_callback_request;
pub use listener::listener_step;
pub use params::extract_query;
pub use params::parse_callback_params;
pub use params::parse_query_pairs;
pub use registry::ErrorNote;
pub use registry::FlowCompletedNote;
pub use registry::FlowStartedNote;
pub use registry::OAuthAuthRequest;
pub use registry::OAuthFlowState;
pub use registry::OAuthLogoutRequest;
pub use registry::OAuthManagerState;
pub use registry::OAuthProvider;
pub use registry::OAuthResult;
pub use registry::OAuthStatus;
pub use registry::OAuthTokens;