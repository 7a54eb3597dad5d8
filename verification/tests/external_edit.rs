use kt_ui::config::{AuthMethod, ConnectParams, ProxyConfig, SessionProfile};
use kt_ui::app_logic::session_state_from_profile;
use kt_ui::external_edit::{
    external_edit_relative_path, external_edit_status_text, format_sftp_progress_percent, is_newer_modified,
    sync_external_edits, ExternalEdit, ExternalEditAction, ExternalEditStatus, ExternalEditSyncMode,
};
use kt_ui::i18n::SftpText;
use kt_ui::session_data::{SessionId, SftpOp, SftpRequestId};
use kt_ui::state::{SessionState, SftpLastDone, SftpProgressState};

fn session_state(id: SessionId) -> SessionState {
    let profile = SessionProfile {
        name: "demo".to_string(),
        group: None,
        params: ConnectParams {
            host: "example.com".to_string(),
            port: 22,
            user: "root".to_string(),
            auth: vec![AuthMethod::Password],
            vault_id: None,
            proxy_jump: None,
            proxy: ProxyConfig::Direct,
            forward_agent: false,
        },
    };
    let mut s = session_state_from_profile(id, &profile);
    s.connected = true;
    s
}

fn edit(id: u64, status: ExternalEditStatus, mode: ExternalEditSyncMode, after: u64) -> ExternalEdit {
    ExternalEdit {
        id,
        session_id: SessionId(1),
        remote_path: "/root/demo.txt".to_string(),
        local_path: "/tmp/demo.txt".to_string(),
        file_name: "demo.txt".to_string(),
        after_revision: after,
        status,
        sync_mode: mode,
        last_seen_modified: None,
        pending_modified: None,
    }
}

fn sftp_text() -> SftpText {
    SftpText {
        close: "Close", back: "Back", refresh: "Refresh", more: "More", name: "Name", size: "Size",
        modified: "Modified", loading: "Loading", error_prefix: "Error", items: "items", upload: "Upload",
        download: "Download", list_view: "List", delete: "Delete", session_missing: "Session missing",
        state_unavailable: "State unavailable", open: "Open", edit_inline: "Edit", rename: "Rename",
        copy_path: "Copy path", copy_name: "Copy name", sync_to_terminal: "Sync to terminal",
        sync_blocked_alt_screen: "Blocked by full-screen program", sync_send_failed: "Send failed",
        editor_session_closed: "The session was closed", editor_not_text: "Not a text file",
        editor_read_failed: "Read failed", edit_status_downloading: "Downloading",
        edit_status_saved: "Saved", edit_status_uploading: "Uploading",
    }
}

#[test]
fn external_edit_download_completion_opens_local_file() {
    let mut session = session_state(SessionId(1));
    session.sftp_last_done = Some(SftpLastDone {
        op: SftpOp::Download,
        path: "/root/demo.txt".to_string(),
        revision: 2,
    });
    let e = edit(1, ExternalEditStatus::Downloading, ExternalEditSyncMode::Ask, 1);
    let (edits, actions) = sync_external_edits(vec![e], &[session], &[Some(5)]);
    assert_eq!(edits[0].status, ExternalEditStatus::Watching);
    assert_eq!(edits[0].after_revision, 2);
    assert_eq!(edits[0].last_seen_modified, Some(5));
    assert_eq!(
        actions,
        vec![ExternalEditAction::OpenLocal {
            edit_id: 1,
            path: "/tmp/demo.txt".to_string(),
            file_name: "demo.txt".to_string(),
        }]
    );
}

#[test]
fn external_edit_upload_once_completion_removes_pending_item() {
    let mut session = session_state(SessionId(1));
    session.sftp_last_done = Some(SftpLastDone {
        op: SftpOp::Upload,
        path: "/root/demo.txt".to_string(),
        revision: 5,
    });
    let e = edit(1, ExternalEditStatus::UploadingOnce, ExternalEditSyncMode::Ask, 4);
    let (edits, actions) = sync_external_edits(vec![e], &[session], &[None]);
    assert!(edits.is_empty());
    assert_eq!(
        actions,
        vec![
            ExternalEditAction::UploadCompleted { file_name: "demo.txt".to_string() },
            ExternalEditAction::DeleteLocal("/tmp/demo.txt".to_string()),
        ]
    );
}

#[test]
fn external_edit_saved_file_prompts_before_upload() {
    let mut e = edit(2, ExternalEditStatus::Watching, ExternalEditSyncMode::Ask, 0);
    e.last_seen_modified = Some(0);
    let (edits, actions) = sync_external_edits(vec![e], &[], &[Some(10)]);
    assert_eq!(edits[0].status, ExternalEditStatus::PromptPending);
    assert_eq!(edits[0].pending_modified, Some(10));
    assert!(actions.is_empty());
}

#[test]
fn external_edit_auto_uploads_when_saved() {
    let mut e = edit(3, ExternalEditStatus::Watching, ExternalEditSyncMode::AutoUpload, 0);
    e.last_seen_modified = Some(0);
    let session = session_state(SessionId(1));
    let (edits, actions) = sync_external_edits(vec![e], &[session], &[Some(10)]);
    assert_eq!(edits[0].status, ExternalEditStatus::UploadingAuto);
    assert_eq!(edits[0].last_seen_modified, Some(10));
    assert_eq!(
        actions,
        vec![ExternalEditAction::Upload {
            session_id: SessionId(1),
            local_path: "/tmp/demo.txt".to_string(),
            remote_path: "/root/demo.txt".to_string(),
            file_name: "demo.txt".to_string(),
        }]
    );
}

#[test]
fn stale_or_foreign_completions_are_ignored() {
    let mut session = session_state(SessionId(1));
    session.sftp_last_done = Some(SftpLastDone {
        op: SftpOp::Download,
        path: "/root/other.txt".to_string(),
        revision: 9,
    });
    let e = edit(4, ExternalEditStatus::Downloading, ExternalEditSyncMode::Ask, 1);
    let (edits, actions) = sync_external_edits(vec![e.clone()], &[session.clone()], &[Some(1)]);
    assert_eq!(edits, vec![e.clone()]);
    assert!(actions.is_empty());
    session.sftp_last_done = Some(SftpLastDone {
        op: SftpOp::Download,
        path: "/root/demo.txt".to_string(),
        revision: 1,
    });
    let (edits, actions) = sync_external_edits(vec![e.clone()], &[session], &[Some(1)]);
    assert_eq!(edits, vec![e]);
    assert!(actions.is_empty());
}

#[test]
fn auto_upload_completion_returns_to_watching() {
    let mut session = session_state(SessionId(1));
    session.sftp_last_done = Some(SftpLastDone {
        op: SftpOp::Upload,
        path: "/root/demo.txt".to_string(),
        revision: 7,
    });
    let mut e = edit(5, ExternalEditStatus::UploadingAuto, ExternalEditSyncMode::AutoUpload, 6);
    e.pending_modified = Some(3);
    let (edits, actions) = sync_external_edits(vec![e], &[session], &[None]);
    assert_eq!(edits[0].status, ExternalEditStatus::Watching);
    assert_eq!(edits[0].after_revision, 7);
    assert_eq!(edits[0].last_seen_modified, Some(3));
    assert_eq!(edits[0].pending_modified, None);
    assert_eq!(actions, vec![ExternalEditAction::UploadCompleted { file_name: "demo.txt".to_string() }]);
}

#[test]
fn newer_modification_times() {
    assert!(is_newer_modified(Some(2), Some(1)));
    assert!(!is_newer_modified(Some(1), Some(1)));
    assert!(is_newer_modified(Some(1), None));
    assert!(!is_newer_modified(None, Some(1)));
    assert!(!is_newer_modified(None, None));
}

#[test]
fn status_text_prefers_downloads_then_prompts_then_uploads() {
    let t = sftp_text();
    let mut session = session_state(SessionId(1));
    session.sftp_progress = Some(SftpProgressState {
        request_id: SftpRequestId(7),
        name: "demo.txt".to_string(),
        transferred: 50,
        total: 200,
    });
    let uploading = edit(1, ExternalEditStatus::UploadingOnce, ExternalEditSyncMode::Ask, 0);
    let mut prompt = edit(2, ExternalEditStatus::PromptPending, ExternalEditSyncMode::Ask, 0);
    prompt.file_name = "b.txt".to_string();
    assert_eq!(
        external_edit_status_text(&[uploading.clone()], Some(&session), None, &t),
        Some("Uploading demo.txt 25%".to_string())
    );
    assert_eq!(
        external_edit_status_text(&[uploading.clone(), prompt.clone()], Some(&session), None, &t),
        Some("Saved b.txt".to_string())
    );
    assert_eq!(
        external_edit_status_text(&[], None, Some("note"), &t),
        Some("note".to_string())
    );
    assert_eq!(external_edit_status_text(&[], None, None, &t), None);
    assert_eq!(
        external_edit_status_text(&[uploading], None, None, &t),
        Some("Uploading demo.txt".to_string())
    );
}

#[test]
fn progress_percent_is_capped_and_needs_a_total() {
    let p = |transferred, total| SftpProgressState { request_id: SftpRequestId(1), name: "x".to_string(), transferred, total };
    assert_eq!(format_sftp_progress_percent(&p(5, 0)), None);
    assert_eq!(format_sftp_progress_percent(&p(1, 3)), Some(33));
    assert_eq!(format_sftp_progress_percent(&p(9, 3)), Some(100));
    assert_eq!(format_sftp_progress_percent(&p(u64::MAX, u64::MAX)), Some(1));
}

#[test]
fn local_copies_are_kept_per_session_with_a_stamped_sanitized_name() {
    assert_eq!(
        external_edit_relative_path(SessionId(4), 1700000000123, "/etc/nginx/nginx.conf"),
        "kitonyterms/sftp-edit/session-4/1700000000123-nginx.conf"
    );
    assert_eq!(external_edit_relative_path(SessionId(1), 0, "/"), "kitonyterms/sftp-edit/session-1/0-remote-file");
}

#[test]
fn a_new_external_edit_waits_for_its_download_and_asks_before_uploading() {
    let edit = kt_ui::external_edit::new_external_edit(
        3,
        SessionId(1),
        "/etc/hosts".to_string(),
        "/tmp/hosts".to_string(),
        "hosts".to_string(),
        12,
    );
    assert_eq!(edit.status, ExternalEditStatus::Downloading);
    assert_eq!(edit.sync_mode, ExternalEditSyncMode::Ask);
    assert_eq!(edit.after_revision, 12);
    assert_eq!(edit.last_seen_modified, None);
    assert_eq!(edit.pending_modified, None);
}

#[test]
fn a_sync_removes_only_the_finished_one_shot_uploads() {
    let mut session = session_state(SessionId(1));
    session.sftp_last_done = Some(SftpLastDone {
        op: SftpOp::Upload,
        path: "/root/demo.txt".to_string(),
        revision: 5,
    });
    let finished = edit(1, ExternalEditStatus::UploadingOnce, ExternalEditSyncMode::Ask, 4);
    let prompt = edit(2, ExternalEditStatus::PromptPending, ExternalEditSyncMode::Ask, 0);
    let mut other_file = edit(3, ExternalEditStatus::UploadingOnce, ExternalEditSyncMode::Ask, 4);
    other_file.remote_path = "/root/other.txt".to_string();
    let stale = edit(4, ExternalEditStatus::UploadingOnce, ExternalEditSyncMode::Ask, 5);
    let downloading = edit(5, ExternalEditStatus::Downloading, ExternalEditSyncMode::Ask, 0);
    let input = vec![finished, prompt.clone(), other_file.clone(), stale.clone(), downloading.clone()];
    let (edits, actions) = sync_external_edits(input, &[session], &[None, Some(9), None, None, None]);
    assert_eq!(edits, vec![prompt, other_file, stale, downloading]);
    assert_eq!(
        actions,
        vec![
            ExternalEditAction::UploadCompleted { file_name: "demo.txt".to_string() },
            ExternalEditAction::DeleteLocal("/tmp/demo.txt".to_string()),
        ]
    );
}
