use kt_ui::app_logic::session_state_from_profile;
use kt_ui::config::{AuthMethod, ConnectParams, ProxyConfig, SessionProfile};
use kt_ui::session_data::{SessionId, SftpRequestId};
use kt_ui::state::{SessionState, SftpCompletion, SftpFailure, SftpProgressState};
use kt_ui::session_data::SftpOp;
use kt_ui::upload::SftpBatchEntry;
use kt_ui::upload_batch::{
    drop_start, folder_drop_outcome, folder_drop_start, listing_drop_outcome, upload_status_text, DropOutcome, DropStart,
    poll_upload_batch, record_sftp_error, upload_batch_request, upload_batch_started, PendingUpload, UploadBatchView,
};

fn connected_session(id: u64) -> SessionState {
    let profile = SessionProfile {
        name: "demo".to_string(),
        group: None,
        params: ConnectParams {
            host: "example.com".to_string(),
            port: 22,
            user: "root".to_string(),
            auth: vec![AuthMethod::Password],
            vault_id: None,
            proxy_jump: None,
            proxy: ProxyConfig::Direct,
            forward_agent: false,
        },
    };
    let mut s = session_state_from_profile(SessionId(id), &profile);
    s.connected = true;
    s
}

fn batch_entry(local: &str, remote: &str, is_dir: bool) -> SftpBatchEntry {
    SftpBatchEntry { local: local.to_string(), remote: remote.to_string(), is_dir }
}

fn pending(confirm_all_files: bool) -> PendingUpload {
    PendingUpload {
        entries: vec![
            batch_entry("/tmp/site", "/srv/site", true),
            batch_entry("/tmp/site/index.html", "/srv/site/index.html", false),
            batch_entry("/tmp/site/css", "/srv/site/css", true),
            batch_entry("/tmp/site/css/a.css", "/srv/site/css/a.css", false),
        ],
        target_dir: "/srv".to_string(),
        conflicts: vec!["site".to_string()],
        confirm_all_files,
    }
}

fn watched(request: u64, session: u64) -> UploadBatchView {
    UploadBatchView {
        request_id: SftpRequestId(request),
        session_id: SessionId(session),
        target_dir: "/srv".to_string(),
        item_count: 4,
        progress: None,
    }
}

#[test]
fn batch_request_overwrites_every_file_of_a_dropped_folder() {
    let request = upload_batch_request(pending(true), true);
    assert_eq!(request.entries.len(), 4);
    assert_eq!(request.target_dir, "/srv");
    assert_eq!(request.overwrite_paths, vec!["/srv/site/index.html".to_string(), "/srv/site/css/a.css".to_string()]);
}

#[test]
fn batch_request_overwrites_only_conflicts_without_folders() {
    let request = upload_batch_request(pending(false), true);
    assert_eq!(request.overwrite_paths, vec!["/srv/site".to_string()]);
}

#[test]
fn batch_request_without_consent_overwrites_nothing() {
    let request = upload_batch_request(pending(true), false);
    assert!(request.overwrite_paths.is_empty());
    assert_eq!(request.entries, pending(true).entries);
}

#[test]
fn accepted_batch_is_watched_with_its_item_count() {
    let request = upload_batch_request(pending(true), false);
    let mut sessions = vec![connected_session(1)];
    let before = sessions.clone();
    let batch = upload_batch_started(None, SessionId(1), &request, Ok(SftpRequestId(9)), &mut sessions);
    assert_eq!(
        batch,
        Some(UploadBatchView {
            request_id: SftpRequestId(9),
            session_id: SessionId(1),
            target_dir: "/srv".to_string(),
            item_count: 4,
            progress: None,
        })
    );
    assert_eq!(sessions, before);
}

#[test]
fn refused_batch_shows_the_error_and_keeps_the_panel_batch() {
    let request = upload_batch_request(pending(false), false);
    let mut sessions = vec![connected_session(2), connected_session(1)];
    let current = Some(watched(3, 1));
    let batch = upload_batch_started(current.clone(), SessionId(1), &request, Err("busy".to_string()), &mut sessions);
    assert_eq!(batch, current);
    assert_eq!(sessions[1].sftp_error, Some("busy".to_string()));
    assert_eq!(sessions[0].sftp_error, None);
}

#[test]
fn error_for_a_missing_session_changes_nothing() {
    let mut sessions = vec![connected_session(1)];
    let before = sessions.clone();
    record_sftp_error(&mut sessions, SessionId(5), "gone".to_string());
    assert_eq!(sessions, before);
}

#[test]
fn watcher_without_a_batch_does_nothing() {
    let mut sessions = vec![connected_session(1)];
    assert_eq!(poll_upload_batch(None, SessionId(1), &mut sessions), (None, false));
}

#[test]
fn watcher_drops_a_batch_of_another_session() {
    let mut sessions = vec![connected_session(1), connected_session(2)];
    assert_eq!(poll_upload_batch(Some(watched(3, 2)), SessionId(1), &mut sessions), (None, false));
}

#[test]
fn watcher_clears_when_the_session_is_gone_or_disconnected() {
    let mut sessions = vec![connected_session(2)];
    assert_eq!(poll_upload_batch(Some(watched(3, 1)), SessionId(1), &mut sessions), (None, true));
    let mut offline = connected_session(1);
    offline.connected = false;
    offline.sftp_pending_requests = vec![SftpRequestId(3)];
    let mut sessions = vec![offline];
    assert_eq!(poll_upload_batch(Some(watched(3, 1)), SessionId(1), &mut sessions), (None, true));
}

#[test]
fn watcher_takes_progress_of_its_own_request() {
    let mut s = connected_session(1);
    let progress = SftpProgressState { request_id: SftpRequestId(3), name: "a.css".to_string(), transferred: 10, total: 40 };
    s.sftp_progress = Some(progress.clone());
    let mut sessions = vec![s];
    let mut expected = watched(3, 1);
    expected.progress = Some(progress);
    assert_eq!(poll_upload_batch(Some(watched(3, 1)), SessionId(1), &mut sessions), (Some(expected), false));
}

#[test]
fn watcher_keeps_a_pending_request_and_ignores_other_progress() {
    let mut s = connected_session(1);
    s.sftp_progress = Some(SftpProgressState { request_id: SftpRequestId(8), name: "x".to_string(), transferred: 1, total: 2 });
    s.sftp_pending_requests = vec![SftpRequestId(8), SftpRequestId(3)];
    let mut sessions = vec![s];
    assert_eq!(poll_upload_batch(Some(watched(3, 1)), SessionId(1), &mut sessions), (Some(watched(3, 1)), false));
}

#[test]
fn watcher_reports_a_failed_request() {
    let mut s = connected_session(1);
    s.sftp_failures = vec![
        SftpFailure { request_id: SftpRequestId(2), message: "other".to_string() },
        SftpFailure { request_id: SftpRequestId(3), message: "permission denied".to_string() },
    ];
    let mut sessions = vec![s];
    assert_eq!(poll_upload_batch(Some(watched(3, 1)), SessionId(1), &mut sessions), (None, false));
    assert_eq!(sessions[0].sftp_error, Some("permission denied".to_string()));
}

#[test]
fn watcher_ends_a_completed_or_vanished_request() {
    let mut s = connected_session(1);
    s.sftp_completions = vec![SftpCompletion { request_id: SftpRequestId(3), op: SftpOp::Upload, path: "/srv".to_string() }];
    let mut sessions = vec![s];
    assert_eq!(poll_upload_batch(Some(watched(3, 1)), SessionId(1), &mut sessions), (None, false));
    assert_eq!(sessions[0].sftp_error, None);
    let mut sessions = vec![connected_session(1)];
    assert_eq!(poll_upload_batch(Some(watched(4, 1)), SessionId(1), &mut sessions), (None, false));
    assert_eq!(sessions[0].sftp_error, None);
}

#[test]
fn drops_are_ignored_offline_or_empty_and_refused_while_uploading() {
    assert_eq!(drop_start(false, 2, false), DropStart::Ignore);
    assert_eq!(drop_start(true, 0, true), DropStart::Ignore);
    assert_eq!(drop_start(true, 1, true), DropStart::UploadBusy);
    assert_eq!(drop_start(true, 1, false), DropStart::Prepare);
}

#[test]
fn listing_drops_start_at_once_only_without_conflicts_or_folders() {
    let mut plain = pending(false);
    plain.conflicts.clear();
    assert_eq!(listing_drop_outcome(Ok(plain.clone())), DropOutcome::Start(plain));
    assert_eq!(listing_drop_outcome(Ok(pending(false))), DropOutcome::Confirm(pending(false)));
    let mut folder = pending(true);
    folder.conflicts.clear();
    assert_eq!(listing_drop_outcome(Ok(folder.clone())), DropOutcome::Confirm(folder));
    assert_eq!(listing_drop_outcome(Err("bad".to_string())), DropOutcome::Fail("bad".to_string()));
}

#[test]
fn folder_drops_always_confirm_and_name_the_folder() {
    let mut plain = pending(false);
    plain.conflicts.clear();
    let mut expected = plain.clone();
    expected.confirm_all_files = true;
    expected.conflicts = vec!["/srv/www".to_string()];
    assert_eq!(folder_drop_outcome("/srv/www", Ok(plain)), DropOutcome::Confirm(expected));
    let mut kept = pending(false);
    kept.confirm_all_files = true;
    assert_eq!(folder_drop_outcome("/srv/www", Ok(pending(false))), DropOutcome::Confirm(kept));
    assert_eq!(folder_drop_outcome("/srv/www", Err("bad".to_string())), DropOutcome::Fail("bad".to_string()));
}

#[test]
fn status_line_shows_progress_or_item_count() {
    let mut batch = watched(3, 1);
    assert_eq!(upload_status_text(&batch, "Uploading", "items"), "Uploading 4 items");
    batch.progress = Some(SftpProgressState { request_id: SftpRequestId(3), name: "a.css".to_string(), transferred: 10, total: 40 });
    assert_eq!(upload_status_text(&batch, "Uploading", "items"), "Uploading a.css (10/40)");
}

#[test]
fn folder_rows_take_drops_whatever_the_connection() {
    assert_eq!(folder_drop_start(0, false), DropStart::Ignore);
    assert_eq!(folder_drop_start(2, true), DropStart::UploadBusy);
    assert_eq!(folder_drop_start(2, false), DropStart::Prepare);
}
