//! What the interface knows about each open session.

use vstd::prelude::*;
use crate::session_data::{AuthChallenge, SessionId, SftpEntry, SftpOp, SftpRequestId};

verus! {

/// The most recent finished SFTP transfer of a session, with a revision
/// number that grows with every completion.
#[derive(Clone, Debug, PartialEq, Eq)]
pub struct SftpLastDone {
    pub op: SftpOp,
    pub path: String,
    pub revision: u64,
}

/// A finished SFTP request.
#[derive(Clone, Debug, PartialEq, Eq)]
pub struct SftpCompletion {
    pub request_id: SftpRequestId,
    pub op: SftpOp,
    pub path: String,
}

/// A failed SFTP request and the reason it failed.
#[derive(Clone, Debug, PartialEq, Eq)]
pub struct SftpFailure {
    pub request_id: SftpRequestId,
    pub message: String,
}

/// The progress of the transfer that is running.
#[derive(Clone, Debug, PartialEq, Eq)]
pub struct SftpProgressState {
    /// The request whose transfer this is.
    pub request_id: SftpRequestId,
    pub name: String,
    pub transferred: u64,
    pub total: u64,
}

/// The interface state of one session.
#[derive(Clone, Debug, PartialEq, Eq)]
pub struct SessionState {
    pub id: SessionId,
    pub title: String,
    pub connected: bool,
    pub connection_error: Option<String>,
    pub auth_challenge: Option<AuthChallenge>,
    pub sftp_path: String,
    pub sftp_entries: Vec<SftpEntry>,
    pub sftp_loading: bool,
    pub sftp_error: Option<String>,
    pub sftp_last_done: Option<SftpLastDone>,
    pub sftp_completions: Vec<SftpCompletion>,
    pub sftp_failures: Vec<SftpFailure>,
    pub sftp_progress: Option<SftpProgressState>,
    /// The SFTP requests sent and not yet finished, failed or dropped.
    pub sftp_pending_requests: Vec<SftpRequestId>,
    pub terminal_cwd: Option<String>,
    /// Whether a resource sample has arrived from the monitor channel.
    pub has_monitor_sample: bool,
    pub monitor_loading: bool,
    pub monitor_error: Option<String>,
}

} // verus!

verus! {

/// The first session with the given id.
pub open spec fn session_by_id(sessions: Seq<SessionState>, id: SessionId) -> Option<SessionState>
    decreases sessions.len(),
{
    if sessions.len() == 0 {
        None
    } else if sessions[0].id == id {
        Some(sessions[0])
    } else {
        session_by_id(sessions.drop_first(), id)
    }
}

/// Looks a session up by id.
pub fn find_session(sessions: &[SessionState], id: SessionId) -> (r: Option<&SessionState>)
    ensures
        match r {
            Some(s) => session_by_id(sessions@, id) == Some(*s),
            None => session_by_id(sessions@, id) is None,
        },
{
    let mut i: usize = 0;
    assert(sessions@.skip(0) =~= sessions@);
    while i < sessions.len()
        invariant
            i <= sessions@.len(),
            session_by_id(sessions@, id) == session_by_id(sessions@.skip(i as int), id),
        decreases sessions@.len() - i,
    {
        assert(sessions@.skip(i as int)[0] == sessions@[i as int]);
        if sessions[i].id == id {
            return Some(&sessions[i]);
        }
        assert(sessions@.skip(i as int).drop_first() =~= sessions@.skip(i as int + 1));
        i = i + 1;
    }
    None
}

/// Whether no two sessions share an id, as in a map keyed by id.
pub open spec fn unique_session_ids(sessions: Seq<SessionState>) -> bool {
    forall|i: int, j: int| 0 <= i < j < sessions.len() ==> #[trigger] sessions[i].id != #[trigger] sessions[j].id
}

/// With distinct ids the list behaves as a map keyed by id: looking up the
/// id of any session finds that very session.
pub proof fn law_lookup_finds_the_session_with_the_id(sessions: Seq<SessionState>, i: int)
    requires
        unique_session_ids(sessions),
        0 <= i < sessions.len(),
    ensures
        session_by_id(sessions, sessions[i].id) == Some(sessions[i]),
    decreases i,
{
    if i > 0 {
        let rest = sessions.drop_first();
        assert(sessions[0].id != sessions[i].id);
        assert forall|a: int, b: int| 0 <= a < b < rest.len() implies #[trigger] rest[a].id != #[trigger] rest[b].id by {
            assert(rest[a] == sessions[a + 1]);
            assert(rest[b] == sessions[b + 1]);
        }
        assert(rest[i - 1] == sessions[i]);
        law_lookup_finds_the_session_with_the_id(rest, i - 1);
    }
}

} // verus!
