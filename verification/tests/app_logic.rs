use kt_ui::app_logic::unique_copy_name;

#[test]
fn unique_copy_name_avoids_existing_names() {
    assert_eq!(unique_copy_name("A", &["A"]), "A 副本");
    assert_eq!(
        unique_copy_name("A", &["A", "A 副本", "A 副本 2"]),
        "A 副本 3"
    );
}

use kt_ui::app_logic::{
    active_monitor_view, active_session, active_sftp_view, auth_challenge_view,
    session_connection_status, session_dot_class, session_state_from_profile,
    session_status_pill_class, session_tab_views, status_bar_session_view, SessionConnectionStatus,
};
use kt_ui::config::{AuthMethod, ConnectParams, ProxyConfig, SessionProfile};
use kt_ui::session_data::{AuthChallenge, SessionId, SftpEntry};

fn profile(name: &str, host: &str) -> SessionProfile {
    SessionProfile {
        name: name.to_string(),
        group: None,
        params: ConnectParams {
            host: host.to_string(),
            port: 22,
            user: "root".to_string(),
            auth: vec![AuthMethod::Password],
            vault_id: None,
            proxy_jump: None,
            proxy: ProxyConfig::Direct,
            forward_agent: false,
        },
    }
}

#[test]
fn session_state_from_profile_initializes_ui_defaults() {
    let state = session_state_from_profile(SessionId(7), &profile("Web Server 01", "10.0.1.10"));
    assert_eq!(state.id, SessionId(7));
    assert_eq!(state.title, "Web Server 01");
    assert!(!state.connected);
    assert_eq!(state.sftp_path, ".");
    assert!(state.sftp_entries.is_empty());
    assert!(state.connection_error.is_none());
    assert!(!state.has_monitor_sample);
    assert!(!state.monitor_loading);
    assert!(state.monitor_error.is_none());
}

#[test]
fn session_dot_class_distinguishes_connecting_and_failed() {
    let mut state = session_state_from_profile(SessionId(7), &profile("Web Server 01", "10.0.1.10"));
    assert_eq!(session_connection_status(&state), SessionConnectionStatus::Connecting);
    assert_eq!(session_dot_class(&state), "status-dot connecting");
    state.auth_challenge = Some(AuthChallenge::Password {
        user: "root".to_string(),
        host: "10.0.1.10".to_string(),
        port: 22,
    });
    assert_eq!(session_connection_status(&state), SessionConnectionStatus::Authenticating);
    assert_eq!(session_dot_class(&state), "status-dot connecting");
    state.auth_challenge = None;
    state.connection_error = Some("连接失败".to_string());
    assert_eq!(session_connection_status(&state), SessionConnectionStatus::Disconnected);
    assert_eq!(session_dot_class(&state), "status-dot idle");
    state.connected = true;
    state.connection_error = None;
    assert_eq!(session_connection_status(&state), SessionConnectionStatus::Connected);
    assert_eq!(session_dot_class(&state), "status-dot online");
    assert_eq!(session_status_pill_class(SessionConnectionStatus::Connected), "status-pill connected");
    assert_eq!(session_status_pill_class(SessionConnectionStatus::Connecting), "status-pill pending");
}

#[test]
fn session_selectors_project_independent_ui_views() {
    let mut state = session_state_from_profile(SessionId(7), &profile("Web Server 01", "10.0.1.10"));
    state.connected = true;
    state.sftp_path = "/var/log".to_string();
    state.sftp_loading = true;
    state.sftp_error = Some("读取失败".to_string());
    state.sftp_entries = vec![SftpEntry {
        name: "system.log".to_string(),
        is_dir: false,
        size: 42,
        modified: None,
        permissions: None,
        user: None,
        group: None,
        uid: None,
        gid: None,
    }];
    state.monitor_loading = true;
    state.monitor_error = Some("监控启动失败".to_string());
    let sessions = vec![state];
    let active = active_session(&sessions, Some(SessionId(7))).unwrap();
    let tabs = session_tab_views(&sessions);
    let sftp = active_sftp_view(Some(active)).unwrap();
    let monitor = active_monitor_view(Some(active)).unwrap();
    let status = status_bar_session_view(Some(active)).unwrap();
    assert_eq!(tabs[0].status, SessionConnectionStatus::Connected);
    assert_eq!(sftp.session_id, SessionId(7));
    assert_eq!(sftp.path, "/var/log");
    assert!(sftp.loading);
    assert_eq!(sftp.error.as_deref(), Some("读取失败"));
    assert_eq!(sftp.entries[0].name, "system.log");
    assert_eq!(monitor.session_id, SessionId(7));
    assert!(monitor.loading);
    assert_eq!(monitor.error.as_deref(), Some("监控启动失败"));
    assert!(!monitor.has_sample);
    assert_eq!(status.title, "Web Server 01");
    assert_eq!(status.status, SessionConnectionStatus::Connected);
    assert!(active_session(&sessions, Some(SessionId(8))).is_none());
    assert!(active_session(&sessions, None).is_none());
    assert!(active_sftp_view(None).is_none());
}

#[test]
fn auth_challenge_selector_returns_first_pending_prompt() {
    let mut a = session_state_from_profile(SessionId(1), &profile("A", "a.test"));
    let mut b = session_state_from_profile(SessionId(2), &profile("B", "b.test"));
    b.auth_challenge = Some(AuthChallenge::Password {
        user: "root".to_string(),
        host: "b.test".to_string(),
        port: 22,
    });
    a.connection_error = Some("旧错误".to_string());
    let selected = auth_challenge_view(&[a, b]).unwrap();
    assert_eq!(selected.0, SessionId(2));
    assert_eq!(selected.1, "B");
    assert!(auth_challenge_view(&[]).is_none());
}

#[test]
fn copy_names_skip_every_taken_number() {
    assert_eq!(unique_copy_name("A", &[]), "A 副本");
    assert_eq!(unique_copy_name("A", &["A 副本", "A 副本 3"]), "A 副本 2");
    let mut taken = vec!["B 副本".to_string()];
    for i in 2..=11 {
        taken.push(format!("B 副本 {i}"));
    }
    let refs: Vec<&str> = taken.iter().map(String::as_str).collect();
    assert_eq!(unique_copy_name("B", &refs), "B 副本 12");
}

fn grouped_profile(name: &str, group: Option<&str>, host: &str) -> kt_ui::config::SessionProfile {
    kt_ui::config::SessionProfile {
        name: name.to_string(),
        group: group.map(|g| g.to_string()),
        params: kt_ui::config::ConnectParams {
            host: host.to_string(),
            port: 22,
            user: "root".to_string(),
            auth: vec![kt_ui::config::AuthMethod::Password],
            vault_id: None,
            proxy_jump: None,
            proxy: kt_ui::config::ProxyConfig::Direct,
            forward_agent: false,
        },
    }
}

#[test]
fn group_profiles_splits_by_group_field() {
    let profiles = vec![grouped_profile("A", Some("Web"), "a.test"), grouped_profile("B", None, "b.test")];
    let normalized = vec![Some("Web".to_string()), None];
    let grouped = kt_ui::app_logic::group_profiles(&profiles, &normalized, &[Some("Cache".to_string())]);
    assert_eq!(grouped.len(), 3);
    assert_eq!(grouped[0].0, "Cache");
    assert!(grouped[0].1.is_empty());
    assert_eq!(grouped[1].0, kt_ui::app_logic::DEFAULT_GROUP_NAME);
    assert_eq!(grouped[1].1.len(), 1);
    assert_eq!(grouped[2].0, "Web");
    assert_eq!(grouped[2].1.len(), 1);
}

#[test]
fn groups_keep_saved_order_and_skip_invalid_declarations() {
    let profiles = vec![
        grouped_profile("one", Some("db"), "1"),
        grouped_profile("two", Some("app"), "2"),
        grouped_profile("three", Some("db"), "3"),
    ];
    let normalized = vec![Some("db".to_string()), Some("app".to_string()), Some("db".to_string())];
    let grouped = kt_ui::app_logic::group_profiles(&profiles, &normalized, &[None, Some("app".to_string())]);
    let names: Vec<&str> = grouped.iter().map(|g| g.0.as_str()).collect();
    assert_eq!(names, vec!["app", "db"]);
    let db: Vec<&str> = grouped[1].1.iter().map(|p| p.name.as_str()).collect();
    assert_eq!(db, vec!["one", "three"]);
    assert_eq!(grouped[1].1[1], profiles[2]);
}

#[test]
fn duplicated_profiles_take_the_first_free_copy_name() {
    let original = grouped_profile("web", Some("prod"), "10.0.0.5");
    let existing = vec![original.clone(), grouped_profile("web 副本", None, "x")];
    let copy = kt_ui::app_logic::duplicate_profile(&original, &existing);
    assert_eq!(copy.name, "web 副本 2");
    assert_eq!(copy.group, original.group);
    assert_eq!(copy.params, original.params);
    let first = kt_ui::app_logic::duplicate_profile(&original, &[]);
    assert_eq!(first.name, "web 副本");
}

#[test]
fn grouping_holds_every_connection_exactly_once() {
    let profiles = vec![
        grouped_profile("one", Some("db"), "1"),
        grouped_profile("two", None, "2"),
        grouped_profile("three", Some("db"), "3"),
        grouped_profile("four", Some("app"), "4"),
    ];
    let normalized = vec![Some("db".to_string()), None, Some("db".to_string()), Some("app".to_string())];
    let grouped = kt_ui::app_logic::group_profiles(&profiles, &normalized, &[Some("empty".to_string())]);
    let mut all: Vec<String> = grouped.iter().flat_map(|g| g.1.iter().map(|p| p.name.clone())).collect();
    all.sort();
    let mut expected: Vec<String> = profiles.iter().map(|p| p.name.clone()).collect();
    expected.sort();
    assert_eq!(all, expected);
}
