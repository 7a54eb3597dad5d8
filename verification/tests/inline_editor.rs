use kt_ui::app_logic::session_state_from_profile;
use kt_ui::config::{AuthMethod, ConnectParams, ProxyConfig, SessionProfile};
use kt_ui::i18n::SftpText;
use kt_ui::inline_editor::{
    editable_text_from_bytes, inline_edit_size_rejection, inline_editor_status_can_close,
    sync_inline_edit, InlineEdit, InlineEditAction, InlineEditLoadError, InlineEditStatus,
    INLINE_EDIT_MAX_BYTES,
};
use kt_ui::inline_editor::{inline_edit_load_error_text, inline_edit_start, InlineEditStart};
use kt_ui::session_data::{SessionId, SftpOp, SftpRequestId};
use kt_ui::state::{SessionState, SftpCompletion, SftpFailure};

fn texts(closed: &'static str) -> SftpText {
    SftpText {
        close: "Close", back: "Back", refresh: "Refresh", more: "More", name: "Name", size: "Size",
        modified: "Modified", loading: "Loading", error_prefix: "Error", items: "items", upload: "Upload",
        download: "Download", list_view: "List", delete: "Delete", session_missing: "Session missing",
        state_unavailable: "State unavailable", open: "Open", edit_inline: "Edit", rename: "Rename",
        copy_path: "Copy path", copy_name: "Copy name", sync_to_terminal: "Sync to terminal",
        sync_blocked_alt_screen: "Blocked", sync_send_failed: "Send failed",
        editor_session_closed: closed, editor_not_text: "Not a text file",
        editor_read_failed: "Read failed", edit_status_downloading: "Downloading",
        edit_status_saved: "Saved", edit_status_uploading: "Uploading",
    }
}

fn edit(status: InlineEditStatus, request_id: Option<u64>) -> InlineEdit {
    InlineEdit {
        session_id: SessionId(1),
        remote_path: "/etc/nginx/nginx.conf".to_string(),
        local_path: "/tmp/kt/nginx.conf".to_string(),
        file_name: "nginx.conf".to_string(),
        request_id: request_id.map(SftpRequestId),
        status,
        original: "worker_processes 1;".to_string(),
    }
}

fn sessions(connected: bool, mutate: impl FnOnce(&mut SessionState)) -> Vec<SessionState> {
    let profile = SessionProfile {
        name: "web".to_string(),
        group: None,
        params: ConnectParams {
            host: "10.0.0.1".to_string(),
            port: 22,
            user: "root".to_string(),
            auth: vec![AuthMethod::Password],
            vault_id: None,
            proxy_jump: None,
            proxy: ProxyConfig::Direct,
            forward_agent: false,
        },
    };
    let mut session = session_state_from_profile(SessionId(1), &profile);
    session.connected = connected;
    mutate(&mut session);
    vec![session]
}

#[test]
fn oversized_files_are_rejected_before_they_are_downloaded() {
    assert_eq!(inline_edit_size_rejection(INLINE_EDIT_MAX_BYTES), None);
    assert_eq!(
        inline_edit_size_rejection(INLINE_EDIT_MAX_BYTES + 1),
        Some(InlineEditLoadError::TooLarge { limit: INLINE_EDIT_MAX_BYTES })
    );
}

#[test]
fn binary_and_oversized_content_never_reaches_the_editor() {
    assert_eq!(
        editable_text_from_bytes(b"server {\n  listen 80;\n}\n".to_vec()).unwrap(),
        "server {\n  listen 80;\n}\n"
    );
    assert_eq!(
        editable_text_from_bytes(vec![0xff, 0xfe, 0x00, 0x01]),
        Err(InlineEditLoadError::NotUtf8)
    );
    assert_eq!(
        editable_text_from_bytes(vec![b'a'; INLINE_EDIT_MAX_BYTES as usize + 1]),
        Err(InlineEditLoadError::TooLarge { limit: INLINE_EDIT_MAX_BYTES })
    );
    assert_eq!(editable_text_from_bytes("目录".as_bytes().to_vec()).unwrap(), "目录");
}

#[test]
fn download_completion_asks_the_caller_to_load_the_file_once() {
    let sessions = sessions(true, |session| {
        session.sftp_completions.push(SftpCompletion {
            request_id: SftpRequestId(7),
            op: SftpOp::Download,
            path: "/etc/nginx/nginx.conf".to_string(),
        });
    });
    let t = texts("会话已关闭");
    let (next, actions) = sync_inline_edit(Some(edit(InlineEditStatus::Loading, Some(7))), &sessions, &t);
    let next = next.unwrap();
    assert_eq!(actions, vec![InlineEditAction::Load { local_path: "/tmp/kt/nginx.conf".to_string() }]);
    assert_eq!(next.request_id, None);
    let (_, again) = sync_inline_edit(Some(next), &sessions, &t);
    assert!(again.is_empty());
}

#[test]
fn successful_upload_closes_the_editor_and_removes_the_temp_file() {
    let sessions = sessions(true, |session| {
        session.sftp_completions.push(SftpCompletion {
            request_id: SftpRequestId(9),
            op: SftpOp::Upload,
            path: "/etc/nginx/nginx.conf".to_string(),
        });
    });
    let (next, actions) =
        sync_inline_edit(Some(edit(InlineEditStatus::Saving, Some(9))), &sessions, &texts("closed"));
    assert!(next.is_none());
    assert_eq!(
        actions,
        vec![
            InlineEditAction::Saved { file_name: "nginx.conf".to_string() },
            InlineEditAction::DeleteLocal("/tmp/kt/nginx.conf".to_string()),
        ]
    );
}

#[test]
fn failed_save_keeps_the_editor_and_the_temp_file_so_edits_are_not_lost() {
    let sessions = sessions(true, |session| {
        session.sftp_failures.push(SftpFailure { request_id: SftpRequestId(9), message: "权限不足".to_string() });
    });
    let (next, actions) =
        sync_inline_edit(Some(edit(InlineEditStatus::Saving, Some(9))), &sessions, &texts("closed"));
    let next = next.unwrap();
    assert_eq!(next.status, InlineEditStatus::SaveFailed("权限不足".to_string()));
    assert_eq!(next.request_id, None);
    assert!(actions.is_empty());
}

#[test]
fn failed_download_reports_the_error_and_cleans_up() {
    let sessions = sessions(true, |session| {
        session.sftp_failures.push(SftpFailure { request_id: SftpRequestId(7), message: "没有权限".to_string() });
    });
    let (next, actions) =
        sync_inline_edit(Some(edit(InlineEditStatus::Loading, Some(7))), &sessions, &texts("closed"));
    assert_eq!(next.unwrap().status, InlineEditStatus::LoadFailed("没有权限".to_string()));
    assert_eq!(actions, vec![InlineEditAction::DeleteLocal("/tmp/kt/nginx.conf".to_string())]);
}

#[test]
fn closing_the_session_mid_flight_resolves_both_directions() {
    let closed = sessions(false, |session| {
        session.connection_error = Some("连接已断开".to_string());
    });
    let t = texts("closed");
    let (loading, _) = sync_inline_edit(Some(edit(InlineEditStatus::Loading, Some(7))), &closed, &t);
    assert_eq!(loading.unwrap().status, InlineEditStatus::LoadFailed("连接已断开".to_string()));
    let (saving, actions) = sync_inline_edit(Some(edit(InlineEditStatus::Saving, Some(9))), &closed, &t);
    assert_eq!(saving.unwrap().status, InlineEditStatus::SaveFailed("连接已断开".to_string()));
    assert!(actions.is_empty());
}

#[test]
fn idle_states_are_untouched_by_unrelated_traffic() {
    let sessions = sessions(true, |session| {
        session.sftp_completions.push(SftpCompletion {
            request_id: SftpRequestId(42),
            op: SftpOp::Download,
            path: "/other/file".to_string(),
        });
    });
    let t = texts("closed");
    let ready = edit(InlineEditStatus::Ready, None);
    let (next, actions) = sync_inline_edit(Some(ready.clone()), &sessions, &t);
    assert_eq!(next, Some(ready));
    assert!(actions.is_empty());
    assert_eq!(sync_inline_edit(None, &sessions, &t), (None, Vec::new()));
}

#[test]
fn loading_status_cannot_close_before_download_converges() {
    assert!(!inline_editor_status_can_close(&InlineEditStatus::Loading));
    assert!(inline_editor_status_can_close(&InlineEditStatus::LoadFailed("失败".to_string())));
    assert!(inline_editor_status_can_close(&InlineEditStatus::Ready));
}

#[test]
fn closed_session_fallback_is_localized() {
    let closed = sessions(false, |_| {});
    let (english, _) = sync_inline_edit(
        Some(edit(InlineEditStatus::Loading, Some(7))),
        &closed,
        &texts("The session was closed"),
    );
    assert_eq!(english.unwrap().status, InlineEditStatus::LoadFailed("The session was closed".to_string()));
    let (chinese, _) =
        sync_inline_edit(Some(edit(InlineEditStatus::Loading, Some(7))), &closed, &texts("会话已关闭"));
    assert_eq!(chinese.unwrap().status, InlineEditStatus::LoadFailed("会话已关闭".to_string()));
    let (missing, _) = sync_inline_edit(Some(edit(InlineEditStatus::Saving, Some(7))), &[], &texts("gone"));
    assert_eq!(missing.unwrap().status, InlineEditStatus::SaveFailed("gone".to_string()));
}

fn listed_entry(name: &str, is_dir: bool, size: u64) -> kt_ui::sidebar::SftpEntryContext {
    kt_ui::sidebar::SftpEntryContext {
        session_id: SessionId(1),
        base_path: "/etc".to_string(),
        entry: kt_ui::session_data::SftpEntry {
            name: name.to_string(),
            is_dir,
            size,
            modified: None,
            permissions: None,
            user: None,
            group: None,
            uid: None,
            gid: None,
        },
    }
}

#[test]
fn opening_in_the_editor_downloads_only_small_files() {
    assert_eq!(inline_edit_start(&listed_entry("nginx", true, 0)), InlineEditStart::NotAFile);
    assert_eq!(
        inline_edit_start(&listed_entry("big.log", false, 2 * 1024 * 1024)),
        InlineEditStart::Rejected(InlineEditLoadError::TooLarge { limit: 1024 * 1024 })
    );
    assert_eq!(
        inline_edit_start(&listed_entry("hosts", false, 1024 * 1024)),
        InlineEditStart::Download { remote_path: "/etc/hosts".to_string() }
    );
}

#[test]
fn a_started_edit_waits_for_its_download() {
    let edit = kt_ui::inline_editor::loading_inline_edit(
        SessionId(2),
        "/etc/hosts".to_string(),
        "/tmp/x/hosts".to_string(),
        "hosts".to_string(),
        SftpRequestId(9),
    );
    assert_eq!(edit.status, InlineEditStatus::Loading);
    assert_eq!(edit.request_id, Some(SftpRequestId(9)));
    assert!(edit.original.is_empty());
}

#[test]
fn load_errors_are_described_by_kind() {
    let t = texts("closed");
    let too_large = InlineEditLoadError::TooLarge { limit: INLINE_EDIT_MAX_BYTES };
    assert_eq!(inline_edit_load_error_text(&too_large, &t, "Over 1.0 MB"), "Over 1.0 MB");
    assert_eq!(inline_edit_load_error_text(&InlineEditLoadError::NotUtf8, &t, "x"), "Not a text file");
    assert_eq!(
        inline_edit_load_error_text(&InlineEditLoadError::Read("denied".to_string()), &t, "x"),
        "Read failed: denied"
    );
}

#[test]
fn load_errors_are_localized_and_distinct() {
    let limit = kt_ui::sidebar::format_sftp_size(INLINE_EDIT_MAX_BYTES, false);
    for (t, too_large) in [
        (texts("会话已关闭"), format!("文件超过 {limit}，无法在内置编辑器中打开")),
        (texts("Session closed"), format!("The file is larger than {limit}")),
    ] {
        let messages = [
            InlineEditLoadError::TooLarge { limit: INLINE_EDIT_MAX_BYTES },
            InlineEditLoadError::NotUtf8,
            InlineEditLoadError::Read("boom".to_string()),
        ]
        .map(|error| inline_edit_load_error_text(&error, &t, &too_large));
        for message in &messages {
            assert!(!message.trim().is_empty());
        }
        assert_ne!(messages[0], messages[1]);
        assert_ne!(messages[1], messages[2]);
        assert!(messages[0].contains("1.0 MB"));
    }
}
