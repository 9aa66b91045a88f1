use oauth_core::ConnectionEvent;
use oauth_core::ListenerPhase;
use oauth_core::OAuthManagerState;
use oauth_core::bind_address;
use oauth_core::callback_url;
use oauth_core::listener_step;
use tokio::net::TcpListener;
use tokio::runtime::Runtime;
use std::time::Duration;

#[test]
fn second_bind_to_same_port_fails() {
    let rt = Runtime::new().unwrap();
    rt.block_on(async {
        let first = TcpListener::bind(bind_address(0).as_str()).await.unwrap();
        let port = first.local_addr().unwrap().port();
        assert_eq!(callback_url(port), format!("http://127.0.0.1:{}/callback", port));
        let second = TcpListener::bind(bind_address(port).as_str()).await;
        assert!(second.is_err());
        drop(first);
    });
}

#[test]
fn no_connection_in_window_fires_no_notification() {
    let rt = Runtime::new().unwrap();
    rt.block_on(async {
        let mut registry = OAuthManagerState::default();
        registry.oauth_handle_error(None, "earlier".to_string(), None);

        let listener = TcpListener::bind(bind_address(0).as_str()).await.unwrap();
        let mut phase = ListenerPhase::WaitingForConnection;
        let mut delivered: Option<oauth_core::CallbackNote> = None;
        let window = tokio::time::timeout(Duration::from_millis(200), listener.accept()).await;
        if window.is_ok() {
            let (next, output) = listener_step(phase, &ConnectionEvent::NothingRead);
            phase = next;
            if let Some((_, note)) = output {
                delivered = Some(note);
            }
        }
        assert!(window.is_err(), "nothing connected, so the accept must still be pending");
        assert!(delivered.is_none());
        assert_eq!(phase, ListenerPhase::WaitingForConnection);
        assert_eq!(registry.oauth_get_last_error(), Some("earlier".to_string()));
        assert_eq!(registry.active_flows.len(), 0);
    });
}
