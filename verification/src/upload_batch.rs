//! A confirmed upload as one batch request: the request that is sent, what
//! the panel keeps when the session manager answers, and how the panel's
//! watcher follows the request until it finishes, fails or goes away.

use vstd::prelude::*;
use crate::inline_editor::{find_failure, first_failure};
use crate::session_data::{SessionId, SftpRequestId};
use crate::state::{find_session, session_by_id, SessionState, SftpProgressState};
use crate::text::{decimal, owned, push_decimal};
use crate::upload::{overwrite_paths, spec_overwrite_paths, views, SftpBatchEntry};

verus! {

/// An upload waiting for the user's confirmation: the batch, the folder it
/// goes to, the remote names it would replace, and whether every file must
/// be confirmed (a folder was dropped).
#[derive(Clone, Debug, PartialEq, Eq)]
pub struct PendingUpload {
    pub entries: Vec<SftpBatchEntry>,
    pub target_dir: String,
    pub conflicts: Vec<String>,
    pub confirm_all_files: bool,
}

/// The batch request handed to the session's SFTP worker.
#[derive(Clone, Debug, PartialEq, Eq)]
pub struct UploadBatchRequest {
    pub entries: Vec<SftpBatchEntry>,
    pub target_dir: String,
    /// The remote files the worker may replace.
    pub overwrite_paths: Vec<String>,
}

/// The upload batch the panel shows while it runs.
#[derive(Clone, Debug, PartialEq, Eq)]
pub struct UploadBatchView {
    pub request_id: SftpRequestId,
    pub session_id: SessionId,
    pub target_dir: String,
    pub item_count: usize,
    pub progress: Option<SftpProgressState>,
}

/// The request for a confirmed upload: the prepared batch as it is, to its
/// folder, with the files it may overwrite (none unless `overwrite`).
pub fn upload_batch_request(prepared: PendingUpload, overwrite: bool) -> (r: UploadBatchRequest)
    ensures
        r.entries@ == prepared.entries@,
        r.target_dir == prepared.target_dir,
        views(r.overwrite_paths@) == spec_overwrite_paths(
            prepared.entries@,
            views(prepared.conflicts@),
            prepared.target_dir@,
            overwrite,
            prepared.confirm_all_files,
        ),
{
    let paths = overwrite_paths(
        prepared.entries.as_slice(),
        prepared.conflicts.as_slice(),
        prepared.target_dir.as_str(),
        overwrite,
        prepared.confirm_all_files,
    );
    UploadBatchRequest { entries: prepared.entries, target_dir: prepared.target_dir, overwrite_paths: paths }
}

/// The position of the first session with the id, or -1.
pub open spec fn first_session_index(sessions: Seq<SessionState>, id: SessionId) -> int
    decreases sessions.len(),
{
    if sessions.len() == 0 {
        -1
    } else if sessions[0].id == id {
        0
    } else {
        let k = first_session_index(sessions.drop_first(), id);
        if k < 0 {
            -1
        } else {
            k + 1
        }
    }
}

/// The sessions after the session with the id shows `message` as its SFTP
/// error; unchanged when no session has the id.
pub open spec fn with_sftp_error(sessions: Seq<SessionState>, id: SessionId, message: String) -> Seq<SessionState> {
    let k = first_session_index(sessions, id);
    if k < 0 {
        sessions
    } else {
        sessions.update(k, SessionState { sftp_error: Some(message), ..sessions[k] })
    }
}

proof fn lemma_first_session_index(sessions: Seq<SessionState>, id: SessionId, i: int)
    requires
        0 <= i <= sessions.len(),
        forall|j: int| 0 <= j < i ==> #[trigger] sessions[j].id != id,
        i == sessions.len() || sessions[i].id == id,
    ensures
        first_session_index(sessions, id) == (if i == sessions.len() { -1 } else { i }),
        first_session_index(sessions, id) >= 0 ==> session_by_id(sessions, id) == Some(
            sessions[first_session_index(sessions, id)],
        ),
        first_session_index(sessions, id) < 0 ==> session_by_id(sessions, id) is None,
    decreases i,
{
    if i > 0 {
        let rest = sessions.drop_first();
        assert(sessions[0].id != id);
        assert forall|j: int| 0 <= j < i - 1 implies #[trigger] rest[j].id != id by {
            assert(rest[j] == sessions[j + 1]);
        }
        lemma_first_session_index(rest, id, i - 1);
    }
}

/// Shows `message` as the SFTP error of the session with the id, if it is
/// open.
pub fn record_sftp_error(sessions: &mut Vec<SessionState>, id: SessionId, message: String)
    ensures
        final(sessions)@ == with_sftp_error(old(sessions)@, id, message),
{
    let mut i: usize = 0;
    while i < sessions.len() && sessions[i].id != id
        invariant
            i <= sessions@.len(),
            forall|j: int| 0 <= j < i ==> #[trigger] sessions@[j].id != id,
        decreases sessions@.len() - i,
    {
        i = i + 1;
    }
    proof {
        lemma_first_session_index(sessions@, id, i as int);
    }
    if i < sessions.len() {
        let ghost before = sessions@;
        let mut s = sessions.remove(i);
        s.sftp_error = Some(message);
        sessions.insert(i, s);
        assert(sessions@ =~= with_sftp_error(before, id, message));
    }
}

/// What the panel keeps when the session manager answers a batch request:
/// on success, the batch to watch (the request id, its session and folder,
/// the number of items, no progress yet); on a refusal, the batch it had.
pub open spec fn spec_batch_after_reply(
    current: Option<UploadBatchView>,
    session_id: SessionId,
    request: UploadBatchRequest,
    reply: Result<SftpRequestId, String>,
) -> Option<UploadBatchView> {
    match reply {
        Ok(id) => Some(
            UploadBatchView {
                request_id: id,
                session_id,
                target_dir: request.target_dir,
                item_count: request.entries@.len() as usize,
                progress: None,
            },
        ),
        Err(_) => current,
    }
}

/// Takes the answer to a batch request: a sent request becomes the batch
/// the panel watches; a refused one leaves the panel's batch as it was and
/// shows the refusal as the session's SFTP error.
pub fn upload_batch_started(
    current: Option<UploadBatchView>,
    session_id: SessionId,
    request: &UploadBatchRequest,
    reply: Result<SftpRequestId, String>,
    sessions: &mut Vec<SessionState>,
) -> (r: Option<UploadBatchView>)
    ensures
        r == spec_batch_after_reply(current, session_id, *request, reply),
        final(sessions)@ == match reply {
            Ok(_) => old(sessions)@,
            Err(message) => with_sftp_error(old(sessions)@, session_id, message),
        },
{
    match reply {
        Ok(request_id) => Some(
            UploadBatchView {
                request_id,
                session_id,
                target_dir: request.target_dir.clone(),
                item_count: request.entries.len(),
                progress: None,
            },
        ),
        Err(message) => {
            record_sftp_error(sessions, session_id, message);
            current
        },
    }
}

/// One look of the panel's watcher at its batch, given the sessions:
/// the batch it keeps, whether the drop highlight goes, and the failure
/// message to show as the session's SFTP error.
///
/// A batch of another session is dropped. When the session is gone or
/// disconnected, the batch and the drop highlight go. Progress reported for
/// the batch's request replaces the shown progress. A request still pending
/// keeps the batch. Otherwise the request has ended: a failure shows its
/// message, and a completion, or a request dropped without an outcome,
/// simply ends the batch.
pub open spec fn spec_poll_upload_batch(batch: UploadBatchView, panel_session: SessionId, sessions: Seq<SessionState>)
    -> (Option<UploadBatchView>, bool, Option<String>)
{
    if batch.session_id != panel_session {
        (None, false, None)
    } else {
        match session_by_id(sessions, panel_session) {
            None => (None, true, None),
            Some(s) => if !s.connected {
                (None, true, None)
            } else if s.sftp_progress matches Some(p) && p.request_id == batch.request_id {
                (Some(UploadBatchView { progress: s.sftp_progress, ..batch }), false, None)
            } else if s.sftp_pending_requests@.contains(batch.request_id) {
                (Some(batch), false, None)
            } else {
                match first_failure(s.sftp_failures@, batch.request_id) {
                    Some(f) => (None, false, Some(f.message)),
                    None => (None, false, None),
                }
            },
        }
    }
}

/// The watcher never changes what a batch is about, and keeps it only while
/// its session is open and connected: a kept batch has the same request,
/// session, folder and item count, and its progress, if it changed, is the
/// session's progress for that request.
pub proof fn law_watcher_keeps_batch_identity(batch: UploadBatchView, panel_session: SessionId, sessions: Seq<SessionState>)
    ensures
        spec_poll_upload_batch(batch, panel_session, sessions).0 matches Some(n) ==> {
            &&& n.request_id == batch.request_id
            &&& n.session_id == batch.session_id
            &&& n.target_dir == batch.target_dir
            &&& n.item_count == batch.item_count
            &&& batch.session_id == panel_session
            &&& session_by_id(sessions, panel_session) matches Some(s) && s.connected && (n.progress == batch.progress || (
            n.progress == s.sftp_progress && (n.progress matches Some(p) && p.request_id == batch.request_id)))
        },
        spec_poll_upload_batch(batch, panel_session, sessions).2 is Some ==> spec_poll_upload_batch(
            batch,
            panel_session,
            sessions,
        ).0 is None,
{
}

fn copy_progress(p: &Option<SftpProgressState>) -> (r: Option<SftpProgressState>)
    ensures
        r == *p,
{
    match p {
        Some(p) => Some(
            SftpProgressState { request_id: p.request_id, name: p.name.clone(), transferred: p.transferred, total: p.total },
        ),
        None => None,
    }
}

fn has_request(pending: &Vec<SftpRequestId>, id: SftpRequestId) -> (r: bool)
    ensures
        r == pending@.contains(id),
{
    let mut i: usize = 0;
    while i < pending.len()
        invariant
            i <= pending@.len(),
            forall|j: int| 0 <= j < i ==> #[trigger] pending@[j] != id,
        decreases pending@.len() - i,
    {
        if pending[i] == id {
            assert(pending@[i as int] == id);
            return true;
        }
        i = i + 1;
    }
    false
}

/// One look of the panel's watcher at its upload batch (nothing happens
/// without a batch). Returns the batch to keep and whether the drop
/// highlight goes; a failure of the batch's request becomes the session's
/// SFTP error.
pub fn poll_upload_batch(batch: Option<UploadBatchView>, panel_session: SessionId, sessions: &mut Vec<SessionState>)
    -> (r: (Option<UploadBatchView>, bool))
    ensures
        match batch {
            None => r == (None::<UploadBatchView>, false) && final(sessions)@ == old(sessions)@,
            Some(b) => {
                let spec = spec_poll_upload_batch(b, panel_session, old(sessions)@);
                &&& r.0 == spec.0
                &&& r.1 == spec.1
                &&& final(sessions)@ == match spec.2 {
                    Some(message) => with_sftp_error(old(sessions)@, panel_session, message),
                    None => old(sessions)@,
                }
            },
        },
{
    let batch = match batch {
        None => return (None, false),
        Some(b) => b,
    };
    if batch.session_id != panel_session {
        return (None, false);
    }
    let mut failure: Option<String> = None;
    let outcome: (Option<UploadBatchView>, bool) = match find_session(sessions.as_slice(), panel_session) {
        None => (None, true),
        Some(s) => {
            if !s.connected {
                (None, true)
            } else {
                let progress_matches = match &s.sftp_progress {
                    Some(p) => p.request_id == batch.request_id,
                    None => false,
                };
                if progress_matches {
                    let progress = copy_progress(&s.sftp_progress);
                    (Some(UploadBatchView { progress, ..batch }), false)
                } else if has_request(&s.sftp_pending_requests, batch.request_id) {
                    (Some(batch), false)
                } else {
                    failure = find_failure(&s.sftp_failures, batch.request_id);
                    (None, false)
                }
            }
        },
    };
    if let Some(message) = failure {
        record_sftp_error(sessions, panel_session, message);
    }
    outcome
}

/// What a drop of local files does before anything local is read.
#[derive(Clone, Copy, Debug, PartialEq, Eq, Structural)]
pub enum DropStart {
    /// Nothing happens: the session is offline, or nothing was dropped.
    Ignore,
    /// A batch is still running: the drop is refused with a notice.
    UploadBusy,
    /// The dropped paths are scanned into a pending upload.
    Prepare,
}

/// What a drop does before anything local is read: nothing while the
/// session is offline or when no file came with it, a refusal while a batch
/// is running, else a scan of the dropped paths.
pub fn drop_start(connected: bool, path_count: usize, batch_running: bool) -> (r: DropStart)
    ensures
        r == (if !connected || path_count == 0 {
            DropStart::Ignore
        } else if batch_running {
            DropStart::UploadBusy
        } else {
            DropStart::Prepare
        }),
{
    if !connected || path_count == 0 {
        DropStart::Ignore
    } else if batch_running {
        DropStart::UploadBusy
    } else {
        DropStart::Prepare
    }
}

/// What a drop onto a folder row does before anything local is read: the
/// row takes drops whatever the session's state, so nothing happens only
/// when no file came with it; a running batch refuses it; else the dropped
/// paths are scanned.
pub fn folder_drop_start(path_count: usize, batch_running: bool) -> (r: DropStart)
    ensures
        r == (if path_count == 0 {
            DropStart::Ignore
        } else if batch_running {
            DropStart::UploadBusy
        } else {
            DropStart::Prepare
        }),
{
    drop_start(true, path_count, batch_running)
}

/// What a scanned drop leads to.
#[derive(Clone, Debug, PartialEq, Eq)]
pub enum DropOutcome {
    /// Upload at once, overwriting nothing.
    Start(PendingUpload),
    /// Ask the user before uploading.
    Confirm(PendingUpload),
    /// The scan failed: show the message as the session's SFTP error.
    Fail(String),
}

/// A drop on the listing itself: an upload that replaces nothing and holds
/// no folder starts at once; one that would replace remote names or holds a
/// folder waits for confirmation; a failed scan shows its message.
pub fn listing_drop_outcome(prepared: Result<PendingUpload, String>) -> (r: DropOutcome)
    ensures
        match prepared {
            Ok(p) => if p.conflicts@.len() == 0 && !p.confirm_all_files {
                r == DropOutcome::Start(p)
            } else {
                r == DropOutcome::Confirm(p)
            },
            Err(m) => r == DropOutcome::Fail(m),
        },
{
    match prepared {
        Ok(p) => {
            if p.conflicts.len() == 0 && !p.confirm_all_files {
                DropOutcome::Start(p)
            } else {
                DropOutcome::Confirm(p)
            }
        },
        Err(m) => DropOutcome::Fail(m),
    }
}

/// A drop onto a remote folder of the listing: the folder's contents are
/// not listed, so every file must be confirmed, and when no name conflicts
/// the folder itself is named as what may be replaced; a failed scan shows
/// its message.
pub fn folder_drop_outcome(drop_path: &str, prepared: Result<PendingUpload, String>) -> (r: DropOutcome)
    ensures
        match prepared {
            Ok(p) => r matches DropOutcome::Confirm(q) && {
                &&& q.entries == p.entries
                &&& q.target_dir == p.target_dir
                &&& q.confirm_all_files
                &&& views(q.conflicts@) == if p.conflicts@.len() == 0 {
                    seq![drop_path@]
                } else {
                    views(p.conflicts@)
                }
            },
            Err(m) => r == DropOutcome::Fail(m),
        },
{
    match prepared {
        Ok(p) => {
            let mut conflicts = p.conflicts;
            if conflicts.len() == 0 {
                conflicts.push(owned(drop_path));
                assert(views(conflicts@) =~= seq![drop_path@]);
            }
            DropOutcome::Confirm(
                PendingUpload { entries: p.entries, target_dir: p.target_dir, conflicts, confirm_all_files: true },
            )
        },
        Err(m) => DropOutcome::Fail(m),
    }
}

/// The status line of a running batch: the file being sent with its bytes
/// so far and in all, or else how many items the batch holds.
pub open spec fn spec_upload_status_text(batch: UploadBatchView, uploading: Seq<char>, items: Seq<char>) -> Seq<char> {
    match batch.progress {
        Some(p) => uploading + " "@ + p.name@ + " ("@ + decimal(p.transferred as nat) + "/"@ + decimal(p.total as nat)
            + ")"@,
        None => uploading + " "@ + decimal(batch.item_count as nat) + " "@ + items,
    }
}

/// The status line of a running batch.
pub fn upload_status_text(batch: &UploadBatchView, uploading: &str, items: &str) -> (r: String)
    ensures
        r@ == spec_upload_status_text(*batch, uploading@, items@),
{
    proof {
        reveal_strlit(" ");
        reveal_strlit(" (");
        reveal_strlit("/");
        reveal_strlit(")");
    }
    let mut r = owned(uploading);
    r.append(" ");
    match &batch.progress {
        Some(p) => {
            r.append(p.name.as_str());
            r.append(" (");
            push_decimal(&mut r, p.transferred as u128);
            r.append("/");
            push_decimal(&mut r, p.total as u128);
            r.append(")");
        },
        None => {
            push_decimal(&mut r, batch.item_count as u128);
            r.append(" ");
            r.append(items);
        },
    }
    r
}

} // verus!
