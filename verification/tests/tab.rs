use kt_ui::i18n::PhoneText;
use kt_ui::tab::{resolved_tab, tab_after_connect, PhoneTab, PHONE_TABS};

#[test]
fn session_backed_tabs_fall_back_to_the_server_list_when_nothing_is_connected() {
    for tab in PHONE_TABS {
        assert_eq!(resolved_tab(tab, false), PhoneTab::Servers);
    }
}

#[test]
fn every_tab_is_reachable_once_a_session_exists() {
    for tab in PHONE_TABS {
        assert_eq!(resolved_tab(tab, true), tab);
    }
}

#[test]
fn only_the_server_list_works_without_a_session() {
    assert!(!PhoneTab::Servers.requires_session());
    assert!(PhoneTab::Terminal.requires_session());
    assert!(PhoneTab::Files.requires_session());
    assert!(PhoneTab::Monitor.requires_session());
}

#[test]
fn connecting_lands_the_user_on_the_terminal() {
    assert_eq!(tab_after_connect(), PhoneTab::Terminal);
}

#[test]
fn tabs_have_distinct_icons_and_labels() {
    let t = PhoneText {
        tab_servers: "服务器",
        tab_terminal: "终端",
        tab_files: "文件",
        tab_monitor: "监控",
        disconnect: "断开",
        switch_session: "切换会话",
    };
    let mut icons: Vec<&str> = PHONE_TABS.iter().map(|tab| tab.icon()).collect();
    let mut labels: Vec<&str> = PHONE_TABS.iter().map(|tab| tab.label(&t)).collect();
    icons.sort_unstable();
    icons.dedup();
    labels.sort_unstable();
    labels.dedup();
    assert_eq!(icons.len(), PHONE_TABS.len());
    assert_eq!(labels.len(), PHONE_TABS.len());
}
