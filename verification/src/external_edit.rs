//! The external-editor workflow as a state machine: a remote file is
//! downloaded, opened in a desktop editor, watched for saves and uploaded
//! back, either after the user confirms or automatically.
//!
//! The machine is pure: the caller reads the local files' modification
//! times, hands them in, and performs the returned actions.

use vstd::prelude::*;
use crate::session_data::{SessionId, SftpOp};
use crate::state::{find_session, session_by_id, SessionState, SftpLastDone, SftpProgressState};
use crate::i18n::SftpText;
use crate::text::{decimal, owned, push_decimal};
use crate::sftp_path::{remote_file_name, sanitize_local_file_name, spec_remote_file_name, spec_sanitize_file_name};

verus! {

/// Where one external edit stands.
#[derive(Clone, Copy, Debug, PartialEq, Eq, Structural)]
pub enum ExternalEditStatus {
    Downloading,
    Watching,
    PromptPending,
    UploadingOnce,
    UploadingAuto,
}

/// What happens when the user saves the local copy.
#[derive(Clone, Copy, Debug, PartialEq, Eq, Structural)]
pub enum ExternalEditSyncMode {
    Ask,
    AutoUpload,
}

/// One remote file being edited in a local editor. Modification times are
/// nanoseconds relative to the Unix epoch.
#[derive(Clone, Debug, PartialEq, Eq)]
pub struct ExternalEdit {
    pub id: u64,
    pub session_id: SessionId,
    pub remote_path: String,
    pub local_path: String,
    pub file_name: String,
    pub after_revision: u64,
    pub status: ExternalEditStatus,
    pub sync_mode: ExternalEditSyncMode,
    pub last_seen_modified: Option<i128>,
    pub pending_modified: Option<i128>,
}

/// Work the caller performs for the state machine.
#[derive(Clone, Debug, PartialEq, Eq)]
pub enum ExternalEditAction {
    OpenLocal { edit_id: u64, path: String, file_name: String },
    Upload { session_id: SessionId, local_path: String, remote_path: String, file_name: String },
    DeleteLocal(String),
    UploadCompleted { file_name: String },
}

/// Whether the local file changed since it was last seen.
pub open spec fn spec_is_newer(current: Option<i128>, previous: Option<i128>) -> bool {
    match (current, previous) {
        (Some(c), Some(p)) => c > p,
        (Some(_), None) => true,
        _ => false,
    }
}

/// The revision of the latest finished transfer of a session, or 0.
pub open spec fn spec_latest_revision(sessions: Seq<SessionState>, id: SessionId) -> u64 {
    match session_by_id(sessions, id) {
        Some(s) => match s.sftp_last_done {
            Some(c) => c.revision,
            None => 0,
        },
        None => 0,
    }
}

/// The session's latest finished transfer if it is newer than what the edit
/// has seen and concerns the edited file.
pub open spec fn matching_completion(edit: ExternalEdit, sessions: Seq<SessionState>) -> Option<SftpLastDone> {
    match session_by_id(sessions, edit.session_id) {
        Some(s) => match s.sftp_last_done {
            Some(c) => if c.revision > edit.after_revision && c.path@ == edit.remote_path@ {
                Some(c)
            } else {
                None
            },
            None => None,
        },
        None => None,
    }
}

/// One edit advanced by one step: the edit that remains (if any) and the
/// actions to perform. `observed` is the local file's current modification time.
pub open spec fn edit_step(edit: ExternalEdit, sessions: Seq<SessionState>, observed: Option<i128>)
    -> (Option<ExternalEdit>, Seq<ExternalEditAction>)
{
    let completion = matching_completion(edit, sessions);
    let revision = match completion {
        Some(c) => c.revision,
        None => edit.after_revision,
    };
    let op = match completion {
        Some(c) => Some(c.op),
        None => None,
    };
    if edit.status == ExternalEditStatus::Downloading && op == Some(SftpOp::Download) {
        (
            Some(ExternalEdit {
                after_revision: revision,
                status: ExternalEditStatus::Watching,
                last_seen_modified: observed,
                pending_modified: None,
                ..edit
            }),
            seq![ExternalEditAction::OpenLocal {
                edit_id: edit.id,
                path: edit.local_path,
                file_name: edit.file_name,
            }],
        )
    } else if edit.status == ExternalEditStatus::UploadingOnce && op == Some(SftpOp::Upload) {
        (
            None,
            seq![
                ExternalEditAction::UploadCompleted { file_name: edit.file_name },
                ExternalEditAction::DeleteLocal(edit.local_path),
            ],
        )
    } else if edit.status == ExternalEditStatus::UploadingAuto && op == Some(SftpOp::Upload) {
        let seen = if observed is Some {
            observed
        } else if edit.pending_modified is Some {
            edit.pending_modified
        } else {
            edit.last_seen_modified
        };
        (
            Some(ExternalEdit {
                after_revision: revision,
                status: ExternalEditStatus::Watching,
                last_seen_modified: seen,
                pending_modified: None,
                ..edit
            }),
            seq![ExternalEditAction::UploadCompleted { file_name: edit.file_name }],
        )
    } else if edit.status == ExternalEditStatus::Watching && spec_is_newer(observed, edit.last_seen_modified) {
        match edit.sync_mode {
            ExternalEditSyncMode::Ask => (
                Some(ExternalEdit {
                    status: ExternalEditStatus::PromptPending,
                    pending_modified: observed,
                    ..edit
                }),
                Seq::empty(),
            ),
            ExternalEditSyncMode::AutoUpload => (
                Some(ExternalEdit {
                    status: ExternalEditStatus::UploadingAuto,
                    after_revision: spec_latest_revision(sessions, edit.session_id),
                    last_seen_modified: observed,
                    pending_modified: None,
                    ..edit
                }),
                seq![ExternalEditAction::Upload {
                    session_id: edit.session_id,
                    local_path: edit.local_path,
                    remote_path: edit.remote_path,
                    file_name: edit.file_name,
                }],
            ),
        }
    } else {
        (Some(edit), Seq::empty())
    }
}

/// The edit as a sequence of zero or one elements.
pub open spec fn opt_seq(e: Option<ExternalEdit>) -> Seq<ExternalEdit> {
    match e {
        Some(x) => seq![x],
        None => Seq::empty(),
    }
}

/// All edits advanced by one step, in order: the edits that remain and all actions.
pub open spec fn spec_sync(edits: Seq<ExternalEdit>, sessions: Seq<SessionState>, observed: Seq<Option<i128>>)
    -> (Seq<ExternalEdit>, Seq<ExternalEditAction>)
    decreases edits.len(),
{
    if edits.len() == 0 {
        (Seq::empty(), Seq::empty())
    } else {
        let prev = spec_sync(edits.drop_last(), sessions, observed.drop_last());
        let step = edit_step(edits.last(), sessions, observed.last());
        (prev.0 + opt_seq(step.0), prev.1 + step.1)
    }
}

/// Whether `current` is a newer modification time than `previous`.
pub fn is_newer_modified(current: Option<i128>, previous: Option<i128>) -> (r: bool)
    ensures
        r == spec_is_newer(current, previous),
{
    match (current, previous) {
        (Some(c), Some(p)) => c > p,
        (Some(_), None) => true,
        _ => false,
    }
}

/// The revision of the latest finished transfer of a session, or 0.
pub fn latest_sftp_completion_revision_from_sessions(sessions: &[SessionState], session_id: SessionId) -> (r: u64)
    ensures
        r == spec_latest_revision(sessions@, session_id),
{
    match find_session(sessions, session_id) {
        Some(s) => match &s.sftp_last_done {
            Some(c) => c.revision,
            None => 0,
        },
        None => 0,
    }
}

fn clone_edit(e: &ExternalEdit) -> (r: ExternalEdit)
    ensures
        r == *e,
{
    ExternalEdit {
        id: e.id,
        session_id: e.session_id,
        remote_path: e.remote_path.clone(),
        local_path: e.local_path.clone(),
        file_name: e.file_name.clone(),
        after_revision: e.after_revision,
        status: e.status,
        sync_mode: e.sync_mode,
        last_seen_modified: e.last_seen_modified,
        pending_modified: e.pending_modified,
    }
}

fn matching_completion_exec(edit: &ExternalEdit, sessions: &[SessionState]) -> (r: Option<(SftpOp, u64)>)
    ensures
        match matching_completion(*edit, sessions@) {
            Some(c) => r == Some((c.op, c.revision)),
            None => r is None,
        },
{
    match find_session(sessions, edit.session_id) {
        Some(s) => match &s.sftp_last_done {
            Some(c) => {
                if c.revision > edit.after_revision && crate::text::str_eq(c.path.as_str(), edit.remote_path.as_str()) {
                    Some((c.op, c.revision))
                } else {
                    None
                }
            },
            None => None,
        },
        None => None,
    }
}

fn step_exec(edit: &ExternalEdit, sessions: &[SessionState], observed: Option<i128>)
    -> (r: (Option<ExternalEdit>, Vec<ExternalEditAction>))
    ensures
        r.0 == edit_step(*edit, sessions@, observed).0,
        r.1@ == edit_step(*edit, sessions@, observed).1,
{
    let completion = matching_completion_exec(edit, sessions);
    let revision = match completion {
        Some((_, rev)) => rev,
        None => edit.after_revision,
    };
    let is_download = match completion {
        Some((SftpOp::Download, _)) => true,
        _ => false,
    };
    let is_upload = match completion {
        Some((SftpOp::Upload, _)) => true,
        _ => false,
    };
    let mut actions: Vec<ExternalEditAction> = Vec::new();
    if edit.status == ExternalEditStatus::Downloading && is_download {
        let mut next = clone_edit(edit);
        next.after_revision = revision;
        next.status = ExternalEditStatus::Watching;
        next.last_seen_modified = observed;
        next.pending_modified = None;
        actions.push(ExternalEditAction::OpenLocal {
            edit_id: edit.id,
            path: edit.local_path.clone(),
            file_name: edit.file_name.clone(),
        });
        assert(actions@ =~= edit_step(*edit, sessions@, observed).1);
        (Some(next), actions)
    } else if edit.status == ExternalEditStatus::UploadingOnce && is_upload {
        actions.push(ExternalEditAction::UploadCompleted { file_name: edit.file_name.clone() });
        actions.push(ExternalEditAction::DeleteLocal(edit.local_path.clone()));
        assert(actions@ =~= edit_step(*edit, sessions@, observed).1);
        (None, actions)
    } else if edit.status == ExternalEditStatus::UploadingAuto && is_upload {
        let mut next = clone_edit(edit);
        next.after_revision = revision;
        next.status = ExternalEditStatus::Watching;
        next.last_seen_modified = if observed.is_some() {
            observed
        } else if edit.pending_modified.is_some() {
            edit.pending_modified
        } else {
            edit.last_seen_modified
        };
        next.pending_modified = None;
        actions.push(ExternalEditAction::UploadCompleted { file_name: edit.file_name.clone() });
        assert(actions@ =~= edit_step(*edit, sessions@, observed).1);
        (Some(next), actions)
    } else if edit.status == ExternalEditStatus::Watching && is_newer_modified(observed, edit.last_seen_modified) {
        let mut next = clone_edit(edit);
        next.pending_modified = observed;
        match edit.sync_mode {
            ExternalEditSyncMode::Ask => {
                next.status = ExternalEditStatus::PromptPending;
                assert(actions@ =~= edit_step(*edit, sessions@, observed).1);
            },
            ExternalEditSyncMode::AutoUpload => {
                next.status = ExternalEditStatus::UploadingAuto;
                next.after_revision = latest_sftp_completion_revision_from_sessions(sessions, edit.session_id);
                next.last_seen_modified = observed;
                next.pending_modified = None;
                actions.push(ExternalEditAction::Upload {
                    session_id: edit.session_id,
                    local_path: edit.local_path.clone(),
                    remote_path: edit.remote_path.clone(),
                    file_name: edit.file_name.clone(),
                });
                assert(actions@ =~= edit_step(*edit, sessions@, observed).1);
            },
        }
        (Some(next), actions)
    } else {
        assert(actions@ =~= edit_step(*edit, sessions@, observed).1);
        (Some(clone_edit(edit)), actions)
    }
}

/// Advances every external edit by one step. `observed[i]` is the current
/// modification time of `edits[i]`'s local file, as the caller read it.
pub fn sync_external_edits(edits: Vec<ExternalEdit>, sessions: &[SessionState], observed: &[Option<i128>])
    -> (r: (Vec<ExternalEdit>, Vec<ExternalEditAction>))
    requires
        observed@.len() == edits@.len(),
    ensures
        r.0@ == spec_sync(edits@, sessions@, observed@).0,
        r.1@ == spec_sync(edits@, sessions@, observed@).1,
        r.0@.map_values(|e: ExternalEdit| e.id) == edits@.filter(|e: ExternalEdit| !upload_once_finished(e, sessions@)).map_values(
            |e: ExternalEdit| e.id,
        ),
        forall|i: int| 0 <= i < edits@.len() && edit_waits(#[trigger] edits@[i], sessions@) ==> r.0@.contains(edits@[i]),
        forall|i: int|
            0 <= i < edits@.len() && edit_waits(#[trigger] edits@[i], sessions@) ==> step_actions(edits@, sessions@, observed@)[i]
                == Seq::<ExternalEditAction>::empty(),
        r.1@ == step_actions(edits@, sessions@, observed@).flatten(),
{
    proof {
        law_sync_removes_exactly_finished_uploads(edits@, sessions@, observed@);
    }
    let mut next: Vec<ExternalEdit> = Vec::new();
    let mut actions: Vec<ExternalEditAction> = Vec::new();
    let mut i: usize = 0;
    while i < edits.len()
        invariant
            i <= edits@.len(),
            observed@.len() == edits@.len(),
            next@ == spec_sync(edits@.take(i as int), sessions@, observed@.take(i as int)).0,
            actions@ == spec_sync(edits@.take(i as int), sessions@, observed@.take(i as int)).1,
        decreases edits@.len() - i,
    {
        let (kept, mut step_actions) = step_exec(&edits[i], sessions, observed[i]);
        proof {
            assert(edits@.take(i as int + 1).drop_last() =~= edits@.take(i as int));
            assert(observed@.take(i as int + 1).drop_last() =~= observed@.take(i as int));
            assert(edits@.take(i as int + 1).last() == edits@[i as int]);
            assert(observed@.take(i as int + 1).last() == observed@[i as int]);
        }
        let ghost before_next = next@;
        let ghost before_actions = actions@;
        match kept {
            Some(e) => {
                next.push(e);
            },
            None => {},
        }
        assert(next@ =~= before_next + opt_seq(edit_step(edits@[i as int], sessions@, observed@[i as int]).0));
        actions.append(&mut step_actions);
        i = i + 1;
    }
    assert(edits@.take(edits@.len() as int) =~= edits@);
    assert(observed@.take(edits@.len() as int) =~= observed@);
    (next, actions)
}

/// A step never changes which file an edit is about: a remaining edit keeps
/// its id, session, remote and local paths, file name and sync mode; an edit
/// is dropped exactly when its one-shot upload has finished, and then its
/// local copy is deleted.
pub proof fn law_step_keeps_identity(edit: ExternalEdit, sessions: Seq<SessionState>, observed: Option<i128>)
    ensures
        match edit_step(edit, sessions, observed).0 {
            Some(n) => n.id == edit.id && n.session_id == edit.session_id
                && n.remote_path == edit.remote_path && n.local_path == edit.local_path
                && n.file_name == edit.file_name && n.sync_mode == edit.sync_mode,
            None => {
                &&& edit.status == ExternalEditStatus::UploadingOnce
                &&& matching_completion(edit, sessions) is Some
                &&& matching_completion(edit, sessions)->0.op == SftpOp::Upload
                &&& edit_step(edit, sessions, observed).1.contains(ExternalEditAction::DeleteLocal(edit.local_path))
            },
        },
{
    let step = edit_step(edit, sessions, observed);
    if step.0 is None {
        assert(step.1[1] == ExternalEditAction::DeleteLocal(edit.local_path));
    }
}

/// An upload is only ever requested for a watched file in auto-upload mode
/// whose local copy changed, and it uploads that edit's file to its path.
pub proof fn law_upload_only_after_local_save(edit: ExternalEdit, sessions: Seq<SessionState>, observed: Option<i128>, i: int)
    requires
        0 <= i < edit_step(edit, sessions, observed).1.len(),
        edit_step(edit, sessions, observed).1[i] is Upload,
    ensures
        edit.status == ExternalEditStatus::Watching,
        edit.sync_mode == ExternalEditSyncMode::AutoUpload,
        spec_is_newer(observed, edit.last_seen_modified),
        edit_step(edit, sessions, observed).1[i] == (ExternalEditAction::Upload {
            session_id: edit.session_id,
            local_path: edit.local_path,
            remote_path: edit.remote_path,
            file_name: edit.file_name,
        }),
{
}

/// Syncing never adds edits: the remaining edits are at most the given ones.
pub proof fn law_sync_never_adds_edits(edits: Seq<ExternalEdit>, sessions: Seq<SessionState>, observed: Seq<Option<i128>>)
    ensures
        spec_sync(edits, sessions, observed).0.len() <= edits.len(),
    decreases edits.len(),
{
    if edits.len() > 0 {
        law_sync_never_adds_edits(edits.drop_last(), sessions, observed.drop_last());
    }
}

/// Whether the edit's one-shot upload has finished: it is uploading once and
/// the session's latest transfer is a newer upload of its file.
pub open spec fn upload_once_finished(edit: ExternalEdit, sessions: Seq<SessionState>) -> bool {
    &&& edit.status == ExternalEditStatus::UploadingOnce
    &&& matching_completion(edit, sessions) matches Some(c)
    &&& c.op == SftpOp::Upload
}

/// Whether the edit is waiting: for the user's confirmation, or for a
/// download or upload that has not finished.
pub open spec fn edit_waits(edit: ExternalEdit, sessions: Seq<SessionState>) -> bool {
    let op = match matching_completion(edit, sessions) {
        Some(c) => Some(c.op),
        None => None,
    };
    ||| edit.status == ExternalEditStatus::PromptPending
    ||| edit.status == ExternalEditStatus::Downloading && op != Some(SftpOp::Download)
    ||| (edit.status == ExternalEditStatus::UploadingOnce || edit.status == ExternalEditStatus::UploadingAuto)
        && op != Some(SftpOp::Upload)
}

/// The actions each edit's step asks for, edit by edit.
pub open spec fn step_actions(edits: Seq<ExternalEdit>, sessions: Seq<SessionState>, observed: Seq<Option<i128>>) -> Seq<
    Seq<ExternalEditAction>,
> {
    Seq::new(edits.len(), |i: int| edit_step(edits[i], sessions, observed[i]).1)
}

/// Over a whole list, a sync removes exactly the one-shot uploads whose
/// upload has finished and keeps every other edit, in order; the actions
/// are those of each edit in turn; an edit that is waiting (for
/// confirmation, or for its own transfer) comes back unchanged and asks for
/// nothing.
pub proof fn law_sync_removes_exactly_finished_uploads(
    edits: Seq<ExternalEdit>,
    sessions: Seq<SessionState>,
    observed: Seq<Option<i128>>,
)
    requires
        observed.len() == edits.len(),
    ensures
        spec_sync(edits, sessions, observed).0.map_values(|e: ExternalEdit| e.id) == edits.filter(
            |e: ExternalEdit| !upload_once_finished(e, sessions),
        ).map_values(|e: ExternalEdit| e.id),
        forall|i: int|
            0 <= i < edits.len() && edit_waits(#[trigger] edits[i], sessions) ==> edit_step(edits[i], sessions, observed[i])
                == (Some(edits[i]), Seq::<ExternalEditAction>::empty()),
        forall|i: int|
            0 <= i < edits.len() && edit_waits(#[trigger] edits[i], sessions) ==> spec_sync(edits, sessions, observed).0.contains(
                edits[i],
            ),
        spec_sync(edits, sessions, observed).1 == step_actions(edits, sessions, observed).flatten(),
    decreases edits.len(),
{
    if edits.len() > 0 {
        let pre = edits.drop_last();
        let pre_obs = observed.drop_last();
        law_sync_removes_exactly_finished_uploads(pre, sessions, pre_obs);
        let prev = spec_sync(pre, sessions, pre_obs);
        let last = edits.last();
        let step = edit_step(last, sessions, observed.last());
        law_step_keeps_identity(last, sessions, observed.last());
        let keep = |e: ExternalEdit| !upload_once_finished(e, sessions);
        let id_of = |e: ExternalEdit| e.id;
        assert(step_actions(pre, sessions, pre_obs) =~= step_actions(edits, sessions, observed).drop_last());
        assert(step_actions(edits, sessions, observed) =~= step_actions(pre, sessions, pre_obs).push(step.1));
        step_actions(pre, sessions, pre_obs).lemma_flatten_push(step.1);
        reveal(Seq::filter);
        assert(edits.filter(keep) == if keep(last) { pre.filter(keep).push(last) } else { pre.filter(keep) });
        assert((prev.0 + opt_seq(step.0)).map_values(id_of) =~= prev.0.map_values(id_of) + opt_seq(step.0).map_values(id_of));
        if keep(last) {
            assert(step.0 is Some);
            assert(pre.filter(keep).push(last).map_values(id_of) =~= pre.filter(keep).map_values(id_of).push(last.id));
            assert(opt_seq(step.0).map_values(id_of) =~= seq![last.id]);
        } else {
            assert(opt_seq(step.0).map_values(id_of) =~= Seq::<u64>::empty());
        }
        assert forall|i: int|
            0 <= i < edits.len() && edit_waits(#[trigger] edits[i], sessions) implies edit_step(edits[i], sessions, observed[i])
                == (Some(edits[i]), Seq::<ExternalEditAction>::empty()) by {
            if i < edits.len() - 1 {
                assert(pre[i] == edits[i]);
                assert(pre_obs[i] == observed[i]);
            }
        }
        assert forall|i: int|
            0 <= i < edits.len() && edit_waits(#[trigger] edits[i], sessions) implies spec_sync(edits, sessions, observed).0.contains(
                edits[i],
            ) by {
            let all = spec_sync(edits, sessions, observed).0;
            assert(all == prev.0 + opt_seq(step.0));
            if i < edits.len() - 1 {
                assert(pre[i] == edits[i]);
                let k = choose|k: int| 0 <= k < prev.0.len() && prev.0[k] == pre[i];
                assert(all[k] == prev.0[k]);
            } else {
                assert(edits[i] == last);
                assert(all[prev.0.len() as int] == last);
            }
        }
    } else {
        assert(edits.filter(|e: ExternalEdit| !upload_once_finished(e, sessions)) =~= Seq::<ExternalEdit>::empty()) by {
            reveal(Seq::filter);
        }
        assert(step_actions(edits, sessions, observed).flatten() =~= Seq::<ExternalEditAction>::empty());
    }
}

/// Which status line an edit contributes to: downloads first, then saved
/// files waiting for confirmation, then uploads.
pub open spec fn status_rank(s: ExternalEditStatus) -> int {
    match s {
        ExternalEditStatus::Downloading => 0,
        ExternalEditStatus::PromptPending => 1,
        ExternalEditStatus::UploadingOnce => 2,
        ExternalEditStatus::UploadingAuto => 2,
        ExternalEditStatus::Watching => 3,
    }
}

/// The first edit, in list order, with the given rank.
pub open spec fn first_with_rank(edits: Seq<ExternalEdit>, rank: int) -> Option<ExternalEdit>
    decreases edits.len(),
{
    if edits.len() == 0 {
        None
    } else if status_rank(edits[0].status) == rank {
        Some(edits[0])
    } else {
        first_with_rank(edits.drop_first(), rank)
    }
}

/// The upload progress in percent: `None` for an unknown total, else the
/// transferred share (saturating) capped at 100.
pub open spec fn spec_progress_percent(p: SftpProgressState) -> Option<u64> {
    if p.total == 0 {
        None
    } else {
        let scaled = if p.transferred * 100 > u64::MAX { u64::MAX as int } else { p.transferred * 100 };
        let q = scaled / (p.total as int);
        Some((if q > 100 { 100 } else { q }) as u64)
    }
}

/// The ` 42%` suffix of the upload line, when the running transfer is this file's.
pub open spec fn progress_suffix(session: Option<SessionState>, file_name: Seq<char>) -> Seq<char> {
    match session {
        Some(s) => match s.sftp_progress {
            Some(p) => if p.name@ == file_name && spec_progress_percent(p) is Some {
                " "@ + decimal(spec_progress_percent(p)->0 as nat) + "%"@
            } else {
                Seq::empty()
            },
            None => Seq::empty(),
        },
        None => Seq::empty(),
    }
}

/// The status line of the external edits, or the notice when no edit is busy.
pub open spec fn spec_status_text(edits: Seq<ExternalEdit>, session: Option<SessionState>, notice: Option<Seq<char>>, t: SftpText)
    -> Option<Seq<char>>
{
    if let Some(e) = first_with_rank(edits, 0) {
        Some(t.edit_status_downloading@ + " "@ + e.file_name@)
    } else if let Some(e) = first_with_rank(edits, 1) {
        Some(t.edit_status_saved@ + " "@ + e.file_name@)
    } else if let Some(e) = first_with_rank(edits, 2) {
        Some(t.edit_status_uploading@ + " "@ + e.file_name@ + progress_suffix(session, e.file_name@))
    } else {
        notice
    }
}

fn rank_of(s: ExternalEditStatus) -> (r: u8)
    ensures
        r as int == status_rank(s),
{
    match s {
        ExternalEditStatus::Downloading => 0,
        ExternalEditStatus::PromptPending => 1,
        ExternalEditStatus::UploadingOnce => 2,
        ExternalEditStatus::UploadingAuto => 2,
        ExternalEditStatus::Watching => 3,
    }
}

fn find_with_rank(edits: &[ExternalEdit], rank: u8) -> (r: Option<&ExternalEdit>)
    ensures
        match r {
            Some(e) => first_with_rank(edits@, rank as int) == Some(*e),
            None => first_with_rank(edits@, rank as int) is None,
        },
{
    let mut i: usize = 0;
    assert(edits@.skip(0) =~= edits@);
    while i < edits.len()
        invariant
            i <= edits@.len(),
            first_with_rank(edits@, rank as int) == first_with_rank(edits@.skip(i as int), rank as int),
        decreases edits@.len() - i,
    {
        assert(edits@.skip(i as int)[0] == edits@[i as int]);
        if rank_of(edits[i].status) == rank {
            return Some(&edits[i]);
        }
        assert(edits@.skip(i as int).drop_first() =~= edits@.skip(i as int + 1));
        i = i + 1;
    }
    None
}

/// The upload progress in percent of a transfer, or `None` when its total is unknown.
pub fn format_sftp_progress_percent(progress: &SftpProgressState) -> (r: Option<u64>)
    ensures
        r == spec_progress_percent(*progress),
{
    if progress.total == 0 {
        return None;
    }
    let scaled: u64 = match progress.transferred.checked_mul(100) {
        Some(x) => x,
        None => u64::MAX,
    };
    let q = scaled / progress.total;
    Some(if q > 100 { 100 } else { q })
}

/// The status-bar text of the external edits: the first download in
/// progress, else the first saved file awaiting confirmation, else the first
/// upload with its progress; with no busy edit, the notice.
pub fn external_edit_status_text(
    edits: &[ExternalEdit],
    session: Option<&SessionState>,
    notice: Option<&str>,
    t: &SftpText,
) -> (r: Option<String>)
    ensures
        match r {
            Some(text) => spec_status_text(edits@, match session { Some(s) => Some(*s), None => None },
                match notice { Some(n) => Some(n@), None => None }, *t) == Some(text@),
            None => spec_status_text(edits@, match session { Some(s) => Some(*s), None => None },
                match notice { Some(n) => Some(n@), None => None }, *t) is None,
        },
{
    if let Some(edit) = find_with_rank(edits, 0) {
        let mut out = owned(t.edit_status_downloading);
        out.append(" ");
        out.append(edit.file_name.as_str());
        return Some(out);
    }
    if let Some(edit) = find_with_rank(edits, 1) {
        let mut out = owned(t.edit_status_saved);
        out.append(" ");
        out.append(edit.file_name.as_str());
        return Some(out);
    }
    if let Some(edit) = find_with_rank(edits, 2) {
        let mut out = owned(t.edit_status_uploading);
        out.append(" ");
        out.append(edit.file_name.as_str());
        let ghost before = out@;
        if let Some(s) = session {
            if let Some(p) = &s.sftp_progress {
                if crate::text::str_eq(p.name.as_str(), edit.file_name.as_str()) {
                    if let Some(percent) = format_sftp_progress_percent(p) {
                        out.append(" ");
                        push_decimal(&mut out, percent as u128);
                        out.append("%");
                    }
                }
            }
        }
        assert(out@ =~= before + progress_suffix(match session { Some(s) => Some(*s), None => None }, edit.file_name@));
        return Some(out);
    }
    match notice {
        Some(n) => Some(owned(n)),
        None => None,
    }
}

/// Where, under the system's temporary folder, a file downloaded for
/// external editing is kept: one folder per session, and a file name made
/// of the download time (`stamp`, in milliseconds since the Unix epoch)
/// and the remote file's sanitized name.
pub open spec fn spec_external_edit_relative_path(session_id: SessionId, stamp: u128, remote_path: Seq<char>) -> Seq<char> {
    "kitonyterms/sftp-edit/session-"@ + decimal(session_id.0 as nat) + "/"@ + decimal(stamp as nat) + "-"@
        + spec_sanitize_file_name(spec_remote_file_name(remote_path))
}

/// The path, relative to the temporary folder, of the local copy of a
/// remote file opened for editing.
pub fn external_edit_relative_path(session_id: SessionId, stamp: u128, remote_path: &str) -> (r: String)
    ensures
        r@ == spec_external_edit_relative_path(session_id, stamp, remote_path@),
{
    let name = sanitize_local_file_name(remote_file_name(remote_path).as_str());
    let mut path = owned("kitonyterms/sftp-edit/session-");
    push_decimal(&mut path, session_id.0 as u128);
    path.append("/");
    push_decimal(&mut path, stamp);
    path.append("-");
    path.append(name.as_str());
    path
}

/// A new external edit once the download of the remote file was sent: it
/// waits for that download (any SFTP completion after `after_revision`),
/// asks before uploading saves, and has seen no local modification yet.
pub fn new_external_edit(
    id: u64,
    session_id: SessionId,
    remote_path: String,
    local_path: String,
    file_name: String,
    after_revision: u64,
) -> (r: ExternalEdit)
    ensures
        r == (ExternalEdit {
            id,
            session_id,
            remote_path,
            local_path,
            file_name,
            after_revision,
            status: ExternalEditStatus::Downloading,
            sync_mode: ExternalEditSyncMode::Ask,
            last_seen_modified: None,
            pending_modified: None,
        }),
{
    ExternalEdit {
        id,
        session_id,
        remote_path,
        local_path,
        file_name,
        after_revision,
        status: ExternalEditStatus::Downloading,
        sync_mode: ExternalEditSyncMode::Ask,
        last_seen_modified: None,
        pending_modified: None,
    }
}

} // verus!
