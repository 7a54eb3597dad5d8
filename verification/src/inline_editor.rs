//! The in-app editor of remote text files as a state machine: download,
//! edit, upload. The machine is pure; the caller performs the returned
//! actions (reading and deleting the local temporary file).

use vstd::prelude::*;
use vstd::utf8::{decode_utf8, valid_utf8};
use crate::i18n::SftpText;
use crate::session_data::{SessionId, SftpOp, SftpRequestId};
use crate::state::{find_session, session_by_id, SessionState, SftpCompletion, SftpFailure};
use crate::text::owned;
use crate::sidebar::SftpEntryContext;
use crate::sftp_path::{join_path, spec_join_path};

verus! {

/// The largest file, in bytes, that the in-app editor opens.
pub const INLINE_EDIT_MAX_BYTES: u64 = 1048576;

/// Where the edited file stands.
#[derive(Clone, Debug, PartialEq, Eq)]
pub enum InlineEditStatus {
    Loading,
    Ready,
    Saving,
    LoadFailed(String),
    SaveFailed(String),
}

/// The one file open in the in-app editor.
#[derive(Clone, Debug, PartialEq, Eq)]
pub struct InlineEdit {
    pub session_id: SessionId,
    pub remote_path: String,
    pub local_path: String,
    pub file_name: String,
    /// The download or upload in flight, if any.
    pub request_id: Option<SftpRequestId>,
    pub status: InlineEditStatus,
    /// The downloaded text.
    pub original: String,
}

/// Where the edited file stands, a failure message taken by its characters.
pub enum InlineEditStatusView {
    Loading,
    Ready,
    Saving,
    LoadFailed(Seq<char>),
    SaveFailed(Seq<char>),
}

impl View for InlineEditStatus {
    type V = InlineEditStatusView;

    open spec fn view(&self) -> InlineEditStatusView {
        match self {
            InlineEditStatus::Loading => InlineEditStatusView::Loading,
            InlineEditStatus::Ready => InlineEditStatusView::Ready,
            InlineEditStatus::Saving => InlineEditStatusView::Saving,
            InlineEditStatus::LoadFailed(m) => InlineEditStatusView::LoadFailed(m@),
            InlineEditStatus::SaveFailed(m) => InlineEditStatusView::SaveFailed(m@),
        }
    }
}

/// The edited file as the contracts see it: its fields, with the status
/// taken by its view.
pub struct InlineEditView {
    pub session_id: SessionId,
    pub remote_path: String,
    pub local_path: String,
    pub file_name: String,
    pub request_id: Option<SftpRequestId>,
    pub status: InlineEditStatusView,
    pub original: String,
}

impl View for InlineEdit {
    type V = InlineEditView;

    open spec fn view(&self) -> InlineEditView {
        InlineEditView {
            session_id: self.session_id,
            remote_path: self.remote_path,
            local_path: self.local_path,
            file_name: self.file_name,
            request_id: self.request_id,
            status: self.status@,
            original: self.original,
        }
    }
}

/// The view of an editor that may be closed.
pub open spec fn opt_edit_view(e: Option<InlineEdit>) -> Option<InlineEditView> {
    match e {
        Some(x) => Some(x@),
        None => None,
    }
}

/// Work the caller performs for the editor.
#[derive(Clone, Debug, PartialEq, Eq)]
pub enum InlineEditAction {
    Load { local_path: String },
    Saved { file_name: String },
    DeleteLocal(String),
}

/// Why a file cannot be opened in the editor.
#[derive(Clone, Debug, PartialEq, Eq)]
pub enum InlineEditLoadError {
    TooLarge { limit: u64 },
    NotUtf8,
    Read(String),
}

/// The first completion of a request.
pub open spec fn first_completion(v: Seq<SftpCompletion>, id: SftpRequestId) -> Option<SftpCompletion>
    decreases v.len(),
{
    if v.len() == 0 {
        None
    } else if v[0].request_id == id {
        Some(v[0])
    } else {
        first_completion(v.drop_first(), id)
    }
}

/// The first failure of a request.
pub open spec fn first_failure(v: Seq<SftpFailure>, id: SftpRequestId) -> Option<SftpFailure>
    decreases v.len(),
{
    if v.len() == 0 {
        None
    } else if v[0].request_id == id {
        Some(v[0])
    } else {
        first_failure(v.drop_first(), id)
    }
}

/// The completion of the edit's request, if it has finished.
pub open spec fn edit_completion(edit: InlineEdit, sessions: Seq<SessionState>) -> Option<SftpCompletion> {
    match (edit.request_id, session_by_id(sessions, edit.session_id)) {
        (Some(id), Some(s)) => first_completion(s.sftp_completions@, id),
        _ => None,
    }
}

/// The failure of the edit's request, if it failed.
pub open spec fn edit_failure(edit: InlineEdit, sessions: Seq<SessionState>) -> Option<SftpFailure> {
    match (edit.request_id, session_by_id(sessions, edit.session_id)) {
        (Some(id), Some(s)) => first_failure(s.sftp_failures@, id),
        _ => None,
    }
}

/// One step of the editor: the editor that remains open (if any) and the
/// actions to perform. A failure, or a transfer cut off because the session
/// closed, clears the request; a failed download becomes `LoadFailed` with
/// the failure's message (else the session's connection error, else
/// `closed_text`) and deletes the local copy, a failed save becomes
/// `SaveFailed` with that message. A finished download is loaded; a
/// finished save closes the editor and deletes the local copy.
pub open spec fn spec_sync_inline(edit: InlineEdit, sessions: Seq<SessionState>, closed_text: Seq<char>)
    -> (Option<InlineEditView>, Seq<InlineEditAction>)
{
    let session = session_by_id(sessions, edit.session_id);
    let completion = edit_completion(edit, sessions);
    let failure = edit_failure(edit, sessions);
    let closed = match session {
        Some(s) => !s.connected,
        None => true,
    };
    let in_flight = edit.status is Loading || edit.status is Saving;
    if failure is Some || (completion is None && closed && in_flight) {
        let message: Seq<char> = match failure {
            Some(f) => f.message@,
            None => match session {
                Some(s) => match s.connection_error {
                    Some(e) => e@,
                    None => closed_text,
                },
                None => closed_text,
            },
        };
        if edit.status is Loading {
            (
                Some(InlineEditView { request_id: None, status: InlineEditStatusView::LoadFailed(message), ..edit@ }),
                seq![InlineEditAction::DeleteLocal(edit.local_path)],
            )
        } else if edit.status is Saving {
            (
                Some(InlineEditView { request_id: None, status: InlineEditStatusView::SaveFailed(message), ..edit@ }),
                Seq::empty(),
            )
        } else {
            (Some(InlineEditView { request_id: None, ..edit@ }), Seq::empty())
        }
    } else if edit.status is Loading && completion is Some && completion->0.op == SftpOp::Download {
        (Some(InlineEditView { request_id: None, ..edit@ }), seq![InlineEditAction::Load { local_path: edit.local_path }])
    } else if edit.status is Saving && completion is Some && completion->0.op == SftpOp::Upload {
        (
            None,
            seq![
                InlineEditAction::Saved { file_name: edit.file_name },
                InlineEditAction::DeleteLocal(edit.local_path),
            ],
        )
    } else {
        (Some(edit@), Seq::empty())
    }
}

fn find_completion(v: &Vec<SftpCompletion>, id: SftpRequestId) -> (r: Option<SftpOp>)
    ensures
        match first_completion(v@, id) {
            Some(c) => r == Some(c.op),
            None => r is None,
        },
{
    let mut i: usize = 0;
    assert(v@.skip(0) =~= v@);
    while i < v.len()
        invariant
            i <= v@.len(),
            first_completion(v@, id) == first_completion(v@.skip(i as int), id),
        decreases v@.len() - i,
    {
        assert(v@.skip(i as int)[0] == v@[i as int]);
        if v[i].request_id == id {
            return Some(v[i].op);
        }
        assert(v@.skip(i as int).drop_first() =~= v@.skip(i as int + 1));
        i = i + 1;
    }
    None
}

pub(crate) fn find_failure(v: &Vec<SftpFailure>, id: SftpRequestId) -> (r: Option<String>)
    ensures
        match first_failure(v@, id) {
            Some(f) => r == Some(f.message),
            None => r is None,
        },
{
    let mut i: usize = 0;
    assert(v@.skip(0) =~= v@);
    while i < v.len()
        invariant
            i <= v@.len(),
            first_failure(v@, id) == first_failure(v@.skip(i as int), id),
        decreases v@.len() - i,
    {
        assert(v@.skip(i as int)[0] == v@[i as int]);
        if v[i].request_id == id {
            return Some(v[i].message.clone());
        }
        assert(v@.skip(i as int).drop_first() =~= v@.skip(i as int + 1));
        i = i + 1;
    }
    None
}

/// Advances the in-app editor by one step: consumes the completion or
/// failure of its request, and resolves it when the session went away.
pub fn sync_inline_edit(edit: Option<InlineEdit>, sessions: &[SessionState], t: &SftpText)
    -> (r: (Option<InlineEdit>, Vec<InlineEditAction>))
    ensures
        match edit {
            None => r.0 is None && r.1@.len() == 0,
            Some(e) => opt_edit_view(r.0) == spec_sync_inline(e, sessions@, t.editor_session_closed@).0
                && r.1@ == spec_sync_inline(e, sessions@, t.editor_session_closed@).1,
        },
{
    let mut edit = match edit {
        None => return (None, Vec::new()),
        Some(e) => e,
    };
    let ghost e0 = edit;
    let mut actions: Vec<InlineEditAction> = Vec::new();
    let session = find_session(sessions, edit.session_id);
    let mut completion: Option<SftpOp> = None;
    let mut failure: Option<String> = None;
    if let Some(rid) = edit.request_id {
        if let Some(s) = session {
            completion = find_completion(&s.sftp_completions, rid);
            failure = find_failure(&s.sftp_failures, rid);
        }
    }
    let closed = match session {
        Some(s) => !s.connected,
        None => true,
    };
    let in_flight = match edit.status {
        InlineEditStatus::Loading | InlineEditStatus::Saving => true,
        _ => false,
    };
    if failure.is_some() || (completion.is_none() && closed && in_flight) {
        let message: String = match failure {
            Some(m) => m,
            None => match session {
                Some(s) => match &s.connection_error {
                    Some(e) => e.clone(),
                    None => owned(t.editor_session_closed),
                },
                None => owned(t.editor_session_closed),
            },
        };
        edit.request_id = None;
        match edit.status {
            InlineEditStatus::Loading => {
                actions.push(InlineEditAction::DeleteLocal(edit.local_path.clone()));
                edit.status = InlineEditStatus::LoadFailed(message);
            },
            InlineEditStatus::Saving => {
                edit.status = InlineEditStatus::SaveFailed(message);
            },
            _ => {},
        }
        proof {
            let m = spec_sync_inline(e0, sessions@, t.editor_session_closed@);
            if e0.status is Loading {
                assert(actions@ =~= m.1);
            } else {
                assert(actions@ =~= m.1);
            }
        }
        return (Some(edit), actions);
    }
    match (&edit.status, completion) {
        (InlineEditStatus::Loading, Some(SftpOp::Download)) => {
            edit.request_id = None;
            actions.push(InlineEditAction::Load { local_path: edit.local_path.clone() });
            assert(actions@ =~= spec_sync_inline(e0, sessions@, t.editor_session_closed@).1);
            (Some(edit), actions)
        },
        (InlineEditStatus::Saving, Some(SftpOp::Upload)) => {
            actions.push(InlineEditAction::Saved { file_name: edit.file_name.clone() });
            actions.push(InlineEditAction::DeleteLocal(edit.local_path.clone()));
            assert(actions@ =~= spec_sync_inline(e0, sessions@, t.editor_session_closed@).1);
            (None, actions)
        },
        _ => {
            assert(actions@ =~= spec_sync_inline(e0, sessions@, t.editor_session_closed@).1);
            (Some(edit), actions)
        },
    }
}

/// The message shown when a file cannot be opened in the editor: for a file
/// over the limit the sentence the caller wrote for the limit (its wording
/// comes with the language's tables), for a file that is not text the
/// catalogue's notice, and for a read error the catalogue's prefix, a colon
/// and the error.
pub open spec fn spec_load_error_text(error: InlineEditLoadError, t: SftpText, too_large: Seq<char>) -> Seq<char> {
    match error {
        InlineEditLoadError::TooLarge { .. } => too_large,
        InlineEditLoadError::NotUtf8 => t.editor_not_text@,
        InlineEditLoadError::Read(message) => t.editor_read_failed@ + ": "@ + message@,
    }
}

/// The message shown when a file cannot be opened in the editor.
pub fn inline_edit_load_error_text(error: &InlineEditLoadError, t: &SftpText, too_large: &str) -> (r: String)
    ensures
        r@ == spec_load_error_text(*error, *t, too_large@),
{
    match error {
        InlineEditLoadError::TooLarge { .. } => owned(too_large),
        InlineEditLoadError::NotUtf8 => owned(t.editor_not_text),
        InlineEditLoadError::Read(message) => {
            let mut r = owned(t.editor_read_failed);
            r.append(": ");
            r.append(message.as_str());
            proof {
                reveal_strlit(": ");
            }
            r
        },
    }
}

/// Whether the editor may be closed: not while the download is running.
pub fn inline_editor_status_can_close(status: &InlineEditStatus) -> (r: bool)
    ensures
        r == !(*status is Loading),
{
    !matches!(status, InlineEditStatus::Loading)
}

/// Rejects a file by its listed size before it is downloaded.
pub fn inline_edit_size_rejection(size: u64) -> (r: Option<InlineEditLoadError>)
    ensures
        size > INLINE_EDIT_MAX_BYTES ==> r == Some(InlineEditLoadError::TooLarge { limit: INLINE_EDIT_MAX_BYTES }),
        size <= INLINE_EDIT_MAX_BYTES ==> r is None,
{
    if size > INLINE_EDIT_MAX_BYTES {
        Some(InlineEditLoadError::TooLarge { limit: INLINE_EDIT_MAX_BYTES })
    } else {
        None
    }
}

/// Decodes bytes as UTF-8.
///
/// Calls `String::from_utf8`, which returns the decoded text exactly when
/// the bytes are valid UTF-8; the contract says so with vstd's UTF-8
/// definitions.
#[verifier::external_body]
fn utf8_string(data: Vec<u8>) -> (r: Option<String>)
    ensures
        r is Some <==> valid_utf8(data@),
        r matches Some(s) ==> s@ == decode_utf8(data@),
{
    String::from_utf8(data).ok()
}

/// The editable text of a downloaded file: at most `INLINE_EDIT_MAX_BYTES`
/// bytes of valid UTF-8.
pub fn editable_text_from_bytes(data: Vec<u8>) -> (r: Result<String, InlineEditLoadError>)
    ensures
        data@.len() > INLINE_EDIT_MAX_BYTES ==> r == Err::<String, InlineEditLoadError>(
            InlineEditLoadError::TooLarge { limit: INLINE_EDIT_MAX_BYTES }),
        data@.len() <= INLINE_EDIT_MAX_BYTES && !valid_utf8(data@) ==> r == Err::<String, InlineEditLoadError>(
            InlineEditLoadError::NotUtf8),
        data@.len() <= INLINE_EDIT_MAX_BYTES && valid_utf8(data@) ==> (r matches Ok(s) && s@ == decode_utf8(data@)),
{
    if data.len() as u64 > INLINE_EDIT_MAX_BYTES {
        return Err(InlineEditLoadError::TooLarge { limit: INLINE_EDIT_MAX_BYTES });
    }
    match utf8_string(data) {
        Some(s) => Ok(s),
        None => Err(InlineEditLoadError::NotUtf8),
    }
}

/// A finished download is loaded into the editor once: the step that asks
/// to load clears the request, and an editor without a request never asks
/// to load.
pub proof fn law_load_dispatched_once(edit: InlineEdit, sessions: Seq<SessionState>, closed_text: Seq<char>)
    ensures
        spec_sync_inline(edit, sessions, closed_text).1.contains(InlineEditAction::Load { local_path: edit.local_path })
            ==> (spec_sync_inline(edit, sessions, closed_text).0 matches Some(n) && n.request_id is None),
        edit.request_id is None ==> !spec_sync_inline(edit, sessions, closed_text).1.contains(
            InlineEditAction::Load { local_path: edit.local_path }),
{
    let r = spec_sync_inline(edit, sessions, closed_text);
    if edit.request_id is None {
        assert(edit_completion(edit, sessions) is None);
        if r.1.len() > 0 {
            assert(r.1[0] != InlineEditAction::Load { local_path: edit.local_path });
        }
        if r.1.len() > 1 {
            assert(r.1[1] != InlineEditAction::Load { local_path: edit.local_path });
        }
    }
    if r.1.contains(InlineEditAction::Load { local_path: edit.local_path }) {
        let k = choose|k: int| 0 <= k < r.1.len() && r.1[k] == InlineEditAction::Load { local_path: edit.local_path };
        assert(r.1[k] is Load);
    }
}

/// A save that did not succeed never removes the local copy: while saving,
/// the local file is deleted only together with the confirmation that the
/// upload finished, and the editor then closes.
pub proof fn law_failed_save_keeps_local_file(edit: InlineEdit, sessions: Seq<SessionState>, closed_text: Seq<char>)
    requires
        edit.status is Saving,
        spec_sync_inline(edit, sessions, closed_text).1.contains(InlineEditAction::DeleteLocal(edit.local_path)),
    ensures
        spec_sync_inline(edit, sessions, closed_text).0 is None,
        spec_sync_inline(edit, sessions, closed_text).1.contains(InlineEditAction::Saved { file_name: edit.file_name }),
{
    let r = spec_sync_inline(edit, sessions, closed_text);
    let k = choose|k: int| 0 <= k < r.1.len() && r.1[k] == InlineEditAction::DeleteLocal(edit.local_path);
    assert(r.1[0] == InlineEditAction::Saved { file_name: edit.file_name });
}

/// An idle editor (no request, not loading or saving) is left as it is,
/// whatever the sessions report.
pub proof fn law_idle_editor_untouched(edit: InlineEdit, sessions: Seq<SessionState>, closed_text: Seq<char>)
    requires
        edit.request_id is None,
        !(edit.status is Loading),
        !(edit.status is Saving),
    ensures
        spec_sync_inline(edit, sessions, closed_text) == (Some(edit@), Seq::<InlineEditAction>::empty()),
{
}

/// What opening a directory entry in the inline editor starts.
#[derive(Clone, Debug, PartialEq, Eq)]
pub enum InlineEditStart {
    /// The entry is a folder: nothing to edit.
    NotAFile,
    /// The file is refused before any download.
    Rejected(InlineEditLoadError),
    /// Download the file at this remote path.
    Download { remote_path: String },
}

/// What opening an entry in the inline editor starts: nothing for a
/// folder; a refusal for a file over the size limit (its listed size is
/// enough to know, so nothing is downloaded); else the download of the
/// entry's remote path.
pub fn inline_edit_start(ctx: &SftpEntryContext) -> (r: InlineEditStart)
    ensures
        ctx.entry.is_dir ==> r == InlineEditStart::NotAFile,
        !ctx.entry.is_dir && ctx.entry.size > INLINE_EDIT_MAX_BYTES ==> r == InlineEditStart::Rejected(
            InlineEditLoadError::TooLarge { limit: INLINE_EDIT_MAX_BYTES },
        ),
        !ctx.entry.is_dir && ctx.entry.size <= INLINE_EDIT_MAX_BYTES ==> (r matches InlineEditStart::Download { remote_path }
            && remote_path@ == spec_join_path(ctx.base_path@, ctx.entry.name@)),
{
    if ctx.entry.is_dir {
        return InlineEditStart::NotAFile;
    }
    match inline_edit_size_rejection(ctx.entry.size) {
        Some(error) => InlineEditStart::Rejected(error),
        None => InlineEditStart::Download { remote_path: join_path(ctx.base_path.as_str(), ctx.entry.name.as_str()) },
    }
}

/// The editor state once the download of a file was sent: loading, with
/// the request to wait for and no text yet.
pub fn loading_inline_edit(
    session_id: SessionId,
    remote_path: String,
    local_path: String,
    file_name: String,
    request_id: SftpRequestId,
) -> (r: InlineEdit)
    ensures
        r == (InlineEdit {
            session_id,
            remote_path,
            local_path,
            file_name,
            request_id: Some(request_id),
            status: InlineEditStatus::Loading,
            original: r.original,
        }),
        r.original@.len() == 0,
{
    InlineEdit {
        session_id,
        remote_path,
        local_path,
        file_name,
        request_id: Some(request_id),
        status: InlineEditStatus::Loading,
        original: String::new(),
    }
}

} // verus!
