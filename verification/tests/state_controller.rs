use kt_ui::app_logic::session_state_from_profile;
use kt_ui::config::{AuthMethod, ConnectParams, ProxyConfig, SessionProfile};
use kt_ui::session_data::SessionId;
use kt_ui::state::SessionState;
use kt_ui::state_controller::{refreshed_sessions, resolve_active_session_id};

fn session(id: u64, title: &str) -> SessionState {
    let profile = SessionProfile {
        name: title.to_string(),
        group: None,
        params: ConnectParams {
            host: "example.com".to_string(),
            port: 22,
            user: "root".to_string(),
            auth: vec![AuthMethod::Password],
            vault_id: None,
            proxy_jump: None,
            proxy: ProxyConfig::Direct,
            forward_agent: false,
        },
    };
    session_state_from_profile(SessionId(id), &profile)
}

#[test]
fn active_session_resolution_keeps_valid_current_session() {
    let sessions = vec![session(1, "a"), session(2, "b")];
    assert_eq!(resolve_active_session_id(Some(SessionId(2)), &sessions), Some(SessionId(2)));
}

#[test]
fn active_session_resolution_picks_first_when_missing_or_stale() {
    let sessions = vec![session(1, "a"), session(2, "b")];
    assert_eq!(resolve_active_session_id(None, &sessions), Some(SessionId(1)));
    assert_eq!(resolve_active_session_id(Some(SessionId(9)), &sessions), Some(SessionId(1)));
}

#[test]
fn active_session_resolution_clears_when_no_sessions_exist() {
    assert_eq!(resolve_active_session_id(Some(SessionId(1)), &[]), None);
}

#[test]
fn polled_sessions_are_listed_by_id() {
    let (sessions, active) = refreshed_sessions(vec![session(3, "c"), session(1, "a"), session(2, "b")], Some(SessionId(7)));
    let ids: Vec<u64> = sessions.iter().map(|s| s.id.0).collect();
    assert_eq!(ids, vec![1, 2, 3]);
    assert_eq!(sessions[0].title, "a");
    assert_eq!(active, Some(SessionId(1)));
    let (_, kept) = refreshed_sessions(vec![session(3, "c"), session(1, "a")], Some(SessionId(3)));
    assert_eq!(kept, Some(SessionId(3)));
    let (empty, none) = refreshed_sessions(Vec::new(), Some(SessionId(3)));
    assert!(empty.is_empty());
    assert_eq!(none, None);
}
