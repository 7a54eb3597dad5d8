use kt_ui::action_sheet::{phone_sheet_actions, sheet_action_effect, PhoneSheet, SheetActionId, SheetEffect};
use kt_ui::app_logic::{SessionConnectionStatus, SessionTabView, DEFAULT_GROUP_NAME};
use kt_ui::config::{AuthMethod, ConnectParams, ProxyConfig, SessionProfile};
use kt_ui::i18n::{AppText, DialogText, MonitorText, PhoneText, SftpText, Texts};
use kt_ui::session_data::{SessionId, SftpEntry};
use kt_ui::sidebar::SftpEntryContext;

fn texts() -> Texts {
    Texts {
        app: AppText {
            connect: "app.connect",
            sessions: "app.sessions",
            monitor: "app.monitor",
            settings: "app.settings",
            no_session: "app.no_session",
            search: "app.search",
            notifications: "app.notifications",
            account: "app.account",
            product_subtitle: "app.product_subtitle",
            explorer: "app.explorer",
            new_connection: "app.new_connection",
            search_hosts: "app.search_hosts",
            my_connections: "app.my_connections",
            more: "app.more",
            no_saved_connections: "app.no_saved_connections",
            saved_connections_hint: "app.saved_connections_hint",
            connection_settings: "app.connection_settings",
            resize_explorer: "app.resize_explorer",
            close_session: "app.close_session",
            disconnected: "app.disconnected",
            split: "app.split",
            split_horizontal: "app.split_horizontal",
            split_vertical: "app.split_vertical",
            clear: "app.clear",
            resize_sftp: "app.resize_sftp",
            connected: "app.connected",
            connecting: "app.connecting",
            ssh_connection: "app.ssh_connection",
            ready: "app.ready",
            ready_hint: "app.ready_hint",
            language: "app.language",
            language_hint: "app.language_hint",
            chinese: "app.chinese",
            english: "app.english",
            close: "app.close",
            terminal_waiting: "app.terminal_waiting",
            terminal_connecting: "app.terminal_connecting",
            session_label: "app.session_label",
            empty_title: "app.empty_title",
            empty_hint: "app.empty_hint",
            system_monitor: "app.system_monitor",
            memory: "app.memory",
            load: "app.load",
            network: "app.network",
            filter: "app.filter",
            edit: "app.edit",
            delete: "app.delete",
            authenticating: "app.authenticating",
            copy: "app.copy",
            paste: "app.paste",
            select_all: "app.select_all",
            reconnect: "app.reconnect",
            rename_group: "app.rename_group",
            delete_group: "app.delete_group",
            settings_nav_general: "app.settings_nav_general",
            settings_nav_terminal: "app.settings_nav_terminal",
            settings_nav_editor: "app.settings_nav_editor",
            settings_nav_sync: "app.settings_nav_sync",
        },
        dialog: DialogText {
            new_title: "dialog.new_title",
            edit_title: "dialog.edit_title",
            name: "dialog.name",
            name_placeholder: "dialog.name_placeholder",
            host: "dialog.host",
            host_placeholder: "dialog.host_placeholder",
            port: "dialog.port",
            user: "dialog.user",
            password: "dialog.password",
            password_placeholder: "dialog.password_placeholder",
            cancel: "dialog.cancel",
            save: "dialog.save",
            required_warning: "dialog.required_warning",
        },
        sftp: SftpText {
            close: "sftp.close",
            back: "sftp.back",
            refresh: "sftp.refresh",
            more: "sftp.more",
            name: "sftp.name",
            size: "sftp.size",
            modified: "sftp.modified",
            loading: "sftp.loading",
            error_prefix: "sftp.error_prefix",
            items: "sftp.items",
            upload: "sftp.upload",
            download: "sftp.download",
            list_view: "sftp.list_view",
            delete: "sftp.delete",
            session_missing: "sftp.session_missing",
            state_unavailable: "sftp.state_unavailable",
            open: "sftp.open",
            edit_inline: "sftp.edit_inline",
            rename: "sftp.rename",
            copy_path: "sftp.copy_path",
            copy_name: "sftp.copy_name",
            sync_to_terminal: "sftp.sync_to_terminal",
            sync_blocked_alt_screen: "sftp.sync_blocked_alt_screen",
            sync_send_failed: "sftp.sync_send_failed",
            editor_session_closed: "sftp.editor_session_closed",
            editor_not_text: "sftp.editor_not_text",
            editor_read_failed: "sftp.editor_read_failed",
            edit_status_downloading: "sftp.edit_status_downloading",
            edit_status_saved: "sftp.edit_status_saved",
            edit_status_uploading: "sftp.edit_status_uploading",
        },
        monitor: MonitorText {
            system_monitor: "monitor.system_monitor",
            close: "monitor.close",
            cpu_cores: "monitor.cpu_cores",
            memory: "monitor.memory",
            load: "monitor.load",
            network: "monitor.network",
            waiting: "monitor.waiting",
            trend: "monitor.trend",
        },
        phone: PhoneText {
            tab_servers: "phone.tab_servers",
            tab_terminal: "phone.tab_terminal",
            tab_files: "phone.tab_files",
            tab_monitor: "phone.tab_monitor",
            disconnect: "phone.disconnect",
            switch_session: "phone.switch_session",
        },
    }
}

fn entry(name: &str, is_dir: bool) -> SftpEntry {
    SftpEntry {
        name: name.to_string(),
        is_dir,
        size: 0,
        modified: None,
        permissions: None,
        user: None,
        group: None,
        uid: None,
        gid: None,
    }
}

fn sftp_sheet(is_dir: bool) -> PhoneSheet {
    PhoneSheet::SftpEntry(SftpEntryContext {
        session_id: SessionId(1),
        base_path: "/var".to_string(),
        entry: entry("log", is_dir),
    })
}

fn profile(name: &str) -> SessionProfile {
    SessionProfile {
        name: name.to_string(),
        group: None,
        params: ConnectParams {
            host: "10.0.0.1".to_string(),
            port: 22,
            user: "root".to_string(),
            auth: vec![AuthMethod::Password],
            vault_id: None,
            proxy_jump: None,
            proxy: ProxyConfig::Direct,
            forward_agent: false,
        },
    }
}

#[test]
fn files_do_not_offer_external_editing_on_phones() {
    let t = texts();
    let (title, actions) = phone_sheet_actions(&sftp_sheet(false), &[], true, &t);
    assert_eq!(title, "log");
    assert!(actions.iter().any(|a| a.id == SheetActionId::InlineEdit));
    assert!(!actions.iter().any(|a| a.id == SheetActionId::Open));
    assert!(actions.iter().all(|a| a.label != "sftp.edit_external"));
}

#[test]
fn directories_can_be_opened_and_never_offer_editing() {
    let (_, actions) = phone_sheet_actions(&sftp_sheet(true), &[], true, &texts());
    assert!(actions.iter().any(|a| a.id == SheetActionId::Open));
    assert!(!actions.iter().any(|a| a.id == SheetActionId::InlineEdit));
}

#[test]
fn deletion_is_always_marked_destructive() {
    for sheet in [sftp_sheet(false), PhoneSheet::Group("Web".to_string()), PhoneSheet::Profile(profile("prod"))] {
        let (_, actions) = phone_sheet_actions(&sheet, &[], true, &texts());
        let destructive = actions
            .iter()
            .find(|a| matches!(a.id, SheetActionId::Delete | SheetActionId::GroupDelete))
            .expect("every sheet offers a delete action");
        assert!(destructive.danger);
    }
}

#[test]
fn default_group_does_not_offer_delete() {
    let (_, actions) = phone_sheet_actions(&PhoneSheet::Group(DEFAULT_GROUP_NAME.to_string()), &[], true, &texts());
    assert!(!actions.iter().any(|action| action.id == SheetActionId::GroupDelete));
    let (_, actions) = phone_sheet_actions(&PhoneSheet::Group("Web".to_string()), &[], true, &texts());
    assert!(actions.iter().any(|action| action.id == SheetActionId::GroupDelete));
}

#[test]
fn terminal_sheet_disables_actions_that_need_a_live_connection() {
    let connected = phone_sheet_actions(&PhoneSheet::Terminal(SessionId(1)), &[], true, &texts()).1;
    let sync = connected.iter().find(|a| a.id == SheetActionId::SyncToTerminal).unwrap();
    let reconnect = connected.iter().find(|a| a.id == SheetActionId::Reconnect).unwrap();
    assert!(!sync.disabled);
    assert!(reconnect.disabled);
    let offline = phone_sheet_actions(&PhoneSheet::Terminal(SessionId(1)), &[], false, &texts()).1;
    assert!(offline.iter().find(|a| a.id == SheetActionId::SyncToTerminal).unwrap().disabled);
    assert!(!offline.iter().find(|a| a.id == SheetActionId::Reconnect).unwrap().disabled);
}

#[test]
fn session_picker_lists_every_session_and_keeps_a_new_connection_entry() {
    let sessions = vec![
        SessionTabView { id: SessionId(1), title: "prod".to_string(), status: SessionConnectionStatus::Connected },
        SessionTabView { id: SessionId(2), title: "staging".to_string(), status: SessionConnectionStatus::Connecting },
    ];
    let (title, actions) = phone_sheet_actions(&PhoneSheet::Sessions, &sessions, true, &texts());
    assert_eq!(title, "phone.switch_session");
    assert_eq!(actions[0].id, SheetActionId::SelectSession(SessionId(1)));
    assert_eq!(actions[0].label, "prod");
    assert_eq!(actions[1].id, SheetActionId::SelectSession(SessionId(2)));
    assert_eq!(actions.last().unwrap().id, SheetActionId::NewConnection);
}

#[test]
fn session_action_keys_include_the_session_identity() {
    assert_ne!(SheetActionId::SelectSession(SessionId(1)).key(), SheetActionId::SelectSession(SessionId(2)).key());
    assert_ne!(SheetActionId::Connect.key(), SheetActionId::Edit.key());
    assert_eq!(SheetActionId::SelectSession(SessionId(7)).key(), format!("{:?}", SessionId(7)).replace("SessionId", "SelectSession(SessionId") + ")");
}

#[test]
fn chosen_actions_map_to_effects() {
    assert_eq!(sheet_action_effect(SheetActionId::Connect, &PhoneSheet::Profile(profile("a"))), SheetEffect::ConnectProfile);
    assert_eq!(
        sheet_action_effect(SheetActionId::CopyPath, &sftp_sheet(false)),
        SheetEffect::CopyText("/var/log".to_string())
    );
    assert_eq!(
        sheet_action_effect(SheetActionId::Delete, &sftp_sheet(true)),
        SheetEffect::RemoveRemote { session_id: SessionId(1), path: "/var/log".to_string(), is_dir: true }
    );
    assert_eq!(
        sheet_action_effect(SheetActionId::GroupRename, &PhoneSheet::Group(DEFAULT_GROUP_NAME.to_string())),
        SheetEffect::RenameGroup { original: DEFAULT_GROUP_NAME.to_string(), initial_name: String::new() }
    );
    assert_eq!(
        sheet_action_effect(SheetActionId::GroupDelete, &PhoneSheet::Group(DEFAULT_GROUP_NAME.to_string())),
        SheetEffect::Nothing
    );
    assert_eq!(
        sheet_action_effect(SheetActionId::SelectAll, &PhoneSheet::Terminal(SessionId(4))),
        SheetEffect::SelectTerminalContents { screen_id: "terminal-4-primary-screen".to_string() }
    );
    assert_eq!(sheet_action_effect(SheetActionId::Paste, &PhoneSheet::Sessions), SheetEffect::Nothing);
    assert_eq!(
        sheet_action_effect(SheetActionId::SelectSession(SessionId(2)), &PhoneSheet::Sessions),
        SheetEffect::SelectSession(SessionId(2))
    );
}
