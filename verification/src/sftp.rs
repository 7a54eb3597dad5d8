//! The SFTP panel's bookkeeping around directory listings: when a listing
//! request is sent, what it resets, how a late listing times out, and
//! whether a refreshed listing changed anything visible.

use vstd::prelude::*;
use crate::session_data::SftpEntry;
use crate::state::SessionState;
use crate::text::{owned, str_eq};

verus! {

/// How long the panel waits for a listing before it reports a timeout.
pub const UI_SFTP_TIMEOUT_SECS: u64 = 15;

/// Whether a listing of `path` is already on its way for the session.
pub fn should_skip_duplicate_request(sess: &SessionState, path: &str) -> (r: bool)
    ensures
        r == (sess.sftp_loading && sess.sftp_path@ == path@),
{
    sess.sftp_loading && str_eq(sess.sftp_path.as_str(), path)
}

/// Starts a listing of `path`: unless the same listing is already loading,
/// the session shows `path`, loading, with no error and no entries yet.
/// Returns whether the listing request must be sent.
pub fn begin_directory_request(sess: &mut SessionState, path: &str) -> (r: bool)
    ensures
        r == !(old(sess).sftp_loading && old(sess).sftp_path@ == path@),
        !r ==> *final(sess) == *old(sess),
        r ==> ({
            &&& final(sess).sftp_path@ == path@
            &&& final(sess).sftp_loading
            &&& final(sess).sftp_error is None
            &&& final(sess).sftp_entries@.len() == 0
            &&& final(sess).id == old(sess).id
            &&& final(sess).title == old(sess).title
            &&& final(sess).connected == old(sess).connected
            &&& final(sess).connection_error == old(sess).connection_error
            &&& final(sess).auth_challenge == old(sess).auth_challenge
            &&& final(sess).sftp_last_done == old(sess).sftp_last_done
            &&& final(sess).sftp_completions == old(sess).sftp_completions
            &&& final(sess).sftp_failures == old(sess).sftp_failures
            &&& final(sess).sftp_progress == old(sess).sftp_progress
            &&& final(sess).sftp_pending_requests == old(sess).sftp_pending_requests
            &&& final(sess).terminal_cwd == old(sess).terminal_cwd
            &&& final(sess).has_monitor_sample == old(sess).has_monitor_sample
            &&& final(sess).monitor_loading == old(sess).monitor_loading
            &&& final(sess).monitor_error == old(sess).monitor_error
        }),
{
    if should_skip_duplicate_request(sess, path) {
        return false;
    }
    sess.sftp_path = owned(path);
    sess.sftp_loading = true;
    sess.sftp_error = None;
    sess.sftp_entries = Vec::new();
    true
}

/// After the timeout: when the listing of `requested_path` is still the one
/// loading, it stops loading and shows `message` as its error; otherwise
/// nothing changes (the listing arrived, or another one replaced it).
/// Returns whether the timeout applied.
pub fn apply_directory_timeout(sess: &mut SessionState, requested_path: &str, message: String) -> (r: bool)
    ensures
        r == (old(sess).sftp_loading && old(sess).sftp_path@ == requested_path@),
        !r ==> *final(sess) == *old(sess),
        r ==> *final(sess) == (SessionState { sftp_loading: false, sftp_error: Some(message), ..*old(sess) }),
{
    if sess.sftp_loading && str_eq(sess.sftp_path.as_str(), requested_path) {
        sess.sftp_loading = false;
        sess.sftp_error = Some(message);
        true
    } else {
        false
    }
}

/// Whether two optional strings read the same.
pub open spec fn same_opt_text(a: Option<String>, b: Option<String>) -> bool {
    match (a, b) {
        (Some(x), Some(y)) => x@ == y@,
        (None, None) => true,
        _ => false,
    }
}

/// Whether two entries show the same: name, kind, size, time, mode, owner.
pub open spec fn same_entry(a: SftpEntry, b: SftpEntry) -> bool {
    &&& a.name@ == b.name@
    &&& a.is_dir == b.is_dir
    &&& a.size == b.size
    &&& a.modified == b.modified
    &&& a.permissions == b.permissions
    &&& same_opt_text(a.user, b.user)
    &&& same_opt_text(a.group, b.group)
    &&& a.uid == b.uid
    &&& a.gid == b.gid
}

fn opt_text_eq(a: &Option<String>, b: &Option<String>) -> (r: bool)
    ensures
        r == same_opt_text(*a, *b),
{
    match (a, b) {
        (Some(x), Some(y)) => str_eq(x.as_str(), y.as_str()),
        (None, None) => true,
        _ => false,
    }
}

fn entry_eq(a: &SftpEntry, b: &SftpEntry) -> (r: bool)
    ensures
        r == same_entry(*a, *b),
{
    str_eq(a.name.as_str(), b.name.as_str()) && a.is_dir == b.is_dir && a.size == b.size && a.modified == b.modified
        && a.permissions == b.permissions && opt_text_eq(&a.user, &b.user) && opt_text_eq(&a.group, &b.group)
        && a.uid == b.uid && a.gid == b.gid
}

/// Whether two listings show the same entries in the same order.
pub fn entries_same(left: &[SftpEntry], right: &[SftpEntry]) -> (r: bool)
    ensures
        r == (left@.len() == right@.len() && forall|i: int| 0 <= i < left@.len() ==> same_entry(#[trigger] left@[i], right@[i])),
{
    if left.len() != right.len() {
        return false;
    }
    let mut i: usize = 0;
    while i < left.len()
        invariant
            i <= left@.len(),
            left@.len() == right@.len(),
            forall|j: int| 0 <= j < i ==> same_entry(#[trigger] left@[j], right@[j]),
        decreases left@.len() - i,
    {
        if !entry_eq(&left[i], &right[i]) {
            return false;
        }
        i = i + 1;
    }
    true
}

} // verus!
