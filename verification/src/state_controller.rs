//! What the window does after each poll of the session table: the session
//! list in id order and which session stays active.

use vstd::prelude::*;
use crate::session_data::SessionId;
use crate::state::SessionState;

verus! {

/// Whether some session has the id.
pub open spec fn has_session(sessions: Seq<SessionState>, id: SessionId) -> bool {
    exists|i: int| 0 <= i < sessions.len() && #[trigger] sessions[i].id == id
}

/// The active session after the list changed: the current one while it
/// still exists, else the first session, else none.
pub open spec fn spec_resolve_active(current: Option<SessionId>, sessions: Seq<SessionState>) -> Option<SessionId> {
    match current {
        Some(id) if has_session(sessions, id) => current,
        _ => if sessions.len() > 0 {
            Some(sessions[0].id)
        } else {
            None
        },
    }
}

/// The session to keep active.
pub fn resolve_active_session_id(current: Option<SessionId>, sessions: &[SessionState]) -> (r: Option<SessionId>)
    ensures
        r == spec_resolve_active(current, sessions@),
{
    if let Some(id) = current {
        let mut i: usize = 0;
        while i < sessions.len()
            invariant
                i <= sessions@.len(),
                current == Some(id),
                forall|j: int| 0 <= j < i ==> sessions@[j].id != id,
            decreases sessions@.len() - i,
        {
            if sessions[i].id.0 == id.0 {
                assert(sessions@[i as int].id == id);
                assert(has_session(sessions@, id));
                return current;
            }
            i = i + 1;
        }
    }
    if sessions.len() > 0 {
        Some(sessions[0].id)
    } else {
        None
    }
}

/// The active session always exists, and there is one whenever a session
/// is open.
pub proof fn law_active_session_is_open(current: Option<SessionId>, sessions: Seq<SessionState>)
    ensures
        spec_resolve_active(current, sessions) is None <==> sessions.len() == 0,
        spec_resolve_active(current, sessions) matches Some(id) ==> has_session(sessions, id),
        current matches Some(id) && has_session(sessions, id) ==> spec_resolve_active(current, sessions) == current,
{
    if sessions.len() > 0 {
        assert(sessions[0].id == sessions[0].id);
    }
}

/// Whether sessions are in increasing id order.
pub open spec fn sorted_by_id(sessions: Seq<SessionState>) -> bool {
    forall|i: int, j: int| 0 <= i < j < sessions.len() ==> #[trigger] sessions[i].id.0 <= #[trigger] sessions[j].id.0
}

/// Sorts sessions by id.
///
/// Calls `slice::sort_by_key` with the numeric id as the key; its
/// documentation promises a permutation in non-decreasing key order.
#[verifier::external_body]
fn sort_sessions_by_id(sessions: &mut Vec<SessionState>)
    ensures
        final(sessions)@.to_multiset() == old(sessions)@.to_multiset(),
        sorted_by_id(final(sessions)@),
{
    sessions.sort_by_key(|session| session.id.0);
}

/// After a poll of the session table (in any order): the sessions in id
/// order, and the session to keep active among them.
pub fn refreshed_sessions(sessions: Vec<SessionState>, current: Option<SessionId>) -> (r: (Vec<SessionState>, Option<SessionId>))
    ensures
        r.0@.to_multiset() == sessions@.to_multiset(),
        sorted_by_id(r.0@),
        r.1 == spec_resolve_active(current, r.0@),
{
    let mut sorted = sessions;
    sort_sessions_by_id(&mut sorted);
    let active = resolve_active_session_id(current, sorted.as_slice());
    (sorted, active)
}

} // verus!
