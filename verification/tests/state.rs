use kt_ui::app_logic::session_state_from_profile;
use kt_ui::config::{AuthMethod, ConnectParams, ProxyConfig, SessionProfile};
use kt_ui::session_data::SessionId;
use kt_ui::state::{find_session, SessionState};

fn named_session(id: u64, title: &str) -> SessionState {
    let profile = SessionProfile {
        name: title.to_string(),
        group: None,
        params: ConnectParams {
            host: "example.com".to_string(),
            port: 22,
            user: "root".to_string(),
            auth: vec![AuthMethod::Password],
            vault_id: None,
            proxy_jump: None,
            proxy: ProxyConfig::Direct,
            forward_agent: false,
        },
    };
    session_state_from_profile(SessionId(id), &profile)
}

#[test]
fn lookup_by_distinct_ids_finds_each_session() {
    let sessions = vec![named_session(3, "a"), named_session(1, "b"), named_session(2, "c")];
    for s in &sessions {
        assert_eq!(find_session(&sessions, s.id), Some(s));
    }
    assert_eq!(find_session(&sessions, SessionId(9)), None);
}
