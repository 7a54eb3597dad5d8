//! Pure selectors of the main window: connection status of a session, its
//! display classes, the projections each panel renders, and names for copies.

use vstd::prelude::*;
use crate::config::{clone_params, clone_profile, same_params, same_profile, SessionProfile};
use crate::fonts::{chars_lt, lemma_seq_lt_irreflexive, lemma_seq_lt_total, lemma_seq_lt_transitive, seq_lt};
use crate::text::{chars_of, owned};
use crate::i18n::AppText;
use crate::session_data::{clone_challenge, clone_entries, same_challenge, AuthChallenge, SessionId, SftpEntry};
use crate::state::SessionState;
use crate::text::{clone_opt_string, contains_str, decimal, lemma_decimal_injective, lemma_decimal_nonempty, push_decimal, str_views};

verus! {

/// The group a profile without a group is shown under.
pub const DEFAULT_GROUP_NAME: &'static str = "NoBrand";

/// Where a session stands on its way to a usable shell.
#[derive(Clone, Copy, Debug, PartialEq, Eq, Structural)]
pub enum SessionConnectionStatus {
    Connected,
    Authenticating,
    Disconnected,
    Connecting,
}

/// One entry of the session tab strip.
#[derive(Clone, Debug, PartialEq, Eq)]
pub struct SessionTabView {
    pub id: SessionId,
    pub title: String,
    pub status: SessionConnectionStatus,
}

/// What the file browser shows for the active session.
#[derive(Clone, Debug, PartialEq, Eq)]
pub struct ActiveSftpView {
    pub session_id: SessionId,
    pub connected: bool,
    pub path: String,
    pub entries: Vec<SftpEntry>,
    pub loading: bool,
    pub error: Option<String>,
}

/// What the resource monitor shows for the active session.
#[derive(Clone, Debug, PartialEq, Eq)]
pub struct ActiveMonitorView {
    pub session_id: SessionId,
    pub loading: bool,
    pub error: Option<String>,
    pub has_sample: bool,
}

/// What the status bar shows for the active session.
#[derive(Clone, Debug, PartialEq, Eq)]
pub struct StatusBarSessionView {
    pub title: String,
    pub status: SessionConnectionStatus,
}

/// A pending authentication question: the session, its title and the question.
pub type AuthChallengeView = (SessionId, String, AuthChallenge);

/// The status of a session: a live connection wins, then a pending
/// authentication question, then a recorded error; otherwise it is connecting.
pub open spec fn spec_connection_status(s: SessionState) -> SessionConnectionStatus {
    if s.connected {
        SessionConnectionStatus::Connected
    } else if s.auth_challenge is Some {
        SessionConnectionStatus::Authenticating
    } else if s.connection_error is Some {
        SessionConnectionStatus::Disconnected
    } else {
        SessionConnectionStatus::Connecting
    }
}

/// The CSS class of the status dot for a status.
pub open spec fn spec_dot_class(status: SessionConnectionStatus) -> Seq<char> {
    match status {
        SessionConnectionStatus::Connected => "status-dot online"@,
        SessionConnectionStatus::Authenticating => "status-dot connecting"@,
        SessionConnectionStatus::Disconnected => "status-dot idle"@,
        SessionConnectionStatus::Connecting => "status-dot connecting"@,
    }
}

/// A freshly opened session for a saved profile: not connected, no error,
/// browsing the home directory, with no file listing and no monitor data.
pub fn session_state_from_profile(id: SessionId, profile: &SessionProfile) -> (s: SessionState)
    ensures
        s.id == id,
        s.title@ == profile.name@,
        !s.connected,
        s.connection_error is None,
        s.auth_challenge is None,
        s.sftp_path@ == "."@,
        s.sftp_entries@.len() == 0,
        !s.sftp_loading,
        s.sftp_error is None,
        s.sftp_last_done is None,
        s.sftp_completions@.len() == 0,
        s.sftp_failures@.len() == 0,
        s.sftp_progress is None,
        s.sftp_pending_requests@.len() == 0,
        s.terminal_cwd is None,
        !s.has_monitor_sample,
        !s.monitor_loading,
        s.monitor_error is None,
        spec_connection_status(s) == SessionConnectionStatus::Connecting,
{
    let mut home = String::new();
    home.append(".");
    SessionState {
        id,
        title: profile.name.clone(),
        connected: false,
        connection_error: None,
        auth_challenge: None,
        sftp_path: home,
        sftp_entries: Vec::new(),
        sftp_loading: false,
        sftp_error: None,
        sftp_last_done: None,
        sftp_completions: Vec::new(),
        sftp_failures: Vec::new(),
        sftp_progress: None,
        sftp_pending_requests: Vec::new(),
        terminal_cwd: None,
        has_monitor_sample: false,
        monitor_loading: false,
        monitor_error: None,
    }
}

/// The connection status of a session.
pub fn session_connection_status(sess: &SessionState) -> (r: SessionConnectionStatus)
    ensures
        r == spec_connection_status(*sess),
{
    if sess.connected {
        SessionConnectionStatus::Connected
    } else if sess.auth_challenge.is_some() {
        SessionConnectionStatus::Authenticating
    } else if sess.connection_error.is_some() {
        SessionConnectionStatus::Disconnected
    } else {
        SessionConnectionStatus::Connecting
    }
}

/// The status-dot class of a session.
pub fn session_dot_class(sess: &SessionState) -> (r: &'static str)
    ensures
        r@ == spec_dot_class(spec_connection_status(*sess)),
{
    session_dot_class_for_status(session_connection_status(sess))
}

/// The status-dot class of a status.
pub fn session_dot_class_for_status(status: SessionConnectionStatus) -> (r: &'static str)
    ensures
        r@ == spec_dot_class(status),
{
    match status {
        SessionConnectionStatus::Connected => "status-dot online",
        SessionConnectionStatus::Authenticating => "status-dot connecting",
        SessionConnectionStatus::Disconnected => "status-dot idle",
        SessionConnectionStatus::Connecting => "status-dot connecting",
    }
}

/// The status-pill class: only a connected session is shown as connected.
pub fn session_status_pill_class(status: SessionConnectionStatus) -> (r: &'static str)
    ensures
        status == SessionConnectionStatus::Connected ==> r@ == "status-pill connected"@,
        status != SessionConnectionStatus::Connected ==> r@ == "status-pill pending"@,
{
    match status {
        SessionConnectionStatus::Connected => "status-pill connected",
        SessionConnectionStatus::Authenticating
        | SessionConnectionStatus::Disconnected
        | SessionConnectionStatus::Connecting => "status-pill pending",
    }
}

/// The localized label of a status.
pub fn session_status_label(status: SessionConnectionStatus, text: &AppText) -> (r: &'static str)
    ensures
        r == match status {
            SessionConnectionStatus::Connected => text.connected,
            SessionConnectionStatus::Authenticating => text.authenticating,
            SessionConnectionStatus::Disconnected => text.disconnected,
            SessionConnectionStatus::Connecting => text.connecting,
        },
{
    match status {
        SessionConnectionStatus::Connected => text.connected,
        SessionConnectionStatus::Authenticating => text.authenticating,
        SessionConnectionStatus::Disconnected => text.disconnected,
        SessionConnectionStatus::Connecting => text.connecting,
    }
}

/// The first session whose id is the active id, if there is an active id.
pub fn active_session(sessions: &[SessionState], active_id: Option<SessionId>) -> (r: Option<&SessionState>)
    ensures
        match r {
            Some(s) => active_id is Some && exists|i: int|
                0 <= i < sessions@.len() && sessions@[i].id == active_id->0 && *s == sessions@[i]
                    && forall|j: int| 0 <= j < i ==> sessions@[j].id != active_id->0,
            None => active_id is None || forall|j: int|
                0 <= j < sessions@.len() ==> sessions@[j].id != active_id->0,
        },
{
    match active_id {
        None => None,
        Some(id) => {
            let mut i: usize = 0;
            while i < sessions.len()
                invariant
                    i <= sessions@.len(),
                    active_id == Some(id),
                    forall|j: int| 0 <= j < i ==> sessions@[j].id != id,
                decreases sessions@.len() - i,
            {
                if sessions[i].id == id {
                    let found = &sessions[i];
                    assert(*found == sessions@[i as int] && sessions@[i as int].id == id);
                    return Some(found);
                }
                i = i + 1;
            }
            None
        },
    }
}

/// The tab of a session.
pub open spec fn spec_tab_view(s: SessionState) -> SessionTabView {
    SessionTabView { id: s.id, title: s.title, status: spec_connection_status(s) }
}

/// One tab per session, in session order.
pub fn session_tab_views(sessions: &[SessionState]) -> (r: Vec<SessionTabView>)
    ensures
        r@ == sessions@.map_values(|s: SessionState| spec_tab_view(s)),
{
    let mut r: Vec<SessionTabView> = Vec::new();
    let mut i: usize = 0;
    while i < sessions.len()
        invariant
            i <= sessions@.len(),
            r@ == sessions@.take(i as int).map_values(|s: SessionState| spec_tab_view(s)),
        decreases sessions@.len() - i,
    {
        let sess = &sessions[i];
        r.push(SessionTabView {
            id: sess.id,
            title: sess.title.clone(),
            status: session_connection_status(sess),
        });
        assert(sessions@.take(i as int + 1).map_values(|s: SessionState| spec_tab_view(s))
            =~= sessions@.take(i as int).map_values(|s: SessionState| spec_tab_view(s)).push(spec_tab_view(sessions@[i as int])));
        i = i + 1;
    }
    assert(sessions@.take(sessions@.len() as int) =~= sessions@);
    r
}

/// The file-browser view of the active session.
pub fn active_sftp_view(active: Option<&SessionState>) -> (r: Option<ActiveSftpView>)
    ensures
        match active {
            None => r is None,
            Some(s) => r matches Some(v) && v.session_id == s.id && v.connected == s.connected
                && v.path == s.sftp_path && v.entries@ == s.sftp_entries@
                && v.loading == s.sftp_loading && v.error == s.sftp_error,
        },
{
    match active {
        None => None,
        Some(sess) => Some(ActiveSftpView {
            session_id: sess.id,
            connected: sess.connected,
            path: sess.sftp_path.clone(),
            entries: clone_entries(&sess.sftp_entries),
            loading: sess.sftp_loading,
            error: clone_opt_string(&sess.sftp_error),
        }),
    }
}

/// The monitor view of the active session.
pub fn active_monitor_view(active: Option<&SessionState>) -> (r: Option<ActiveMonitorView>)
    ensures
        match active {
            None => r is None,
            Some(s) => r == Some(ActiveMonitorView {
                session_id: s.id,
                loading: s.monitor_loading,
                error: s.monitor_error,
                has_sample: s.has_monitor_sample,
            }),
        },
{
    match active {
        None => None,
        Some(sess) => Some(ActiveMonitorView {
            session_id: sess.id,
            loading: sess.monitor_loading,
            error: clone_opt_string(&sess.monitor_error),
            has_sample: sess.has_monitor_sample,
        }),
    }
}

/// The status-bar view of the active session.
pub fn status_bar_session_view(active: Option<&SessionState>) -> (r: Option<StatusBarSessionView>)
    ensures
        match active {
            None => r is None,
            Some(s) => r == Some(StatusBarSessionView { title: s.title, status: spec_connection_status(*s) }),
        },
{
    match active {
        None => None,
        Some(sess) => Some(StatusBarSessionView {
            title: sess.title.clone(),
            status: session_connection_status(sess),
        }),
    }
}

/// The first session, in list order, that waits for an answer to an
/// authentication question.
pub fn auth_challenge_view(sessions: &[SessionState]) -> (r: Option<AuthChallengeView>)
    ensures
        match r {
            Some(v) => exists|i: int|
                0 <= i < sessions@.len() && sessions@[i].auth_challenge is Some
                    && v.0 == sessions@[i].id && v.1 == sessions@[i].title
                    && same_challenge(v.2, sessions@[i].auth_challenge->0)
                    && forall|j: int| 0 <= j < i ==> sessions@[j].auth_challenge is None,
            None => forall|j: int| 0 <= j < sessions@.len() ==> sessions@[j].auth_challenge is None,
        },
{
    let mut i: usize = 0;
    while i < sessions.len()
        invariant
            i <= sessions@.len(),
            forall|j: int| 0 <= j < i ==> sessions@[j].auth_challenge is None,
        decreases sessions@.len() - i,
    {
        match &sessions[i].auth_challenge {
            Some(challenge) => {
                return Some((sessions[i].id, sessions[i].title.clone(), clone_challenge(challenge)));
            },
            None => {},
        }
        i = i + 1;
    }
    None
}

/// The name of the `index`-th copy of `base`: `"{base} 副本"` for the first
/// (index 0 or 1), `"{base} 副本 {index}"` from the second on.
pub open spec fn copy_name(base: Seq<char>, index: nat) -> Seq<char> {
    if index < 2 {
        base + " 副本"@
    } else {
        base + " 副本 "@ + decimal(index)
    }
}

proof fn lemma_copy_name_injective(base: Seq<char>, i: nat, j: nat)
    requires
        i >= 1,
        j >= 1,
        copy_name(base, i) == copy_name(base, j),
    ensures
        i == j || (i < 2 && j < 2),
{
    reveal_strlit(" 副本");
    reveal_strlit(" 副本 ");
    let p = base + " 副本 "@;
    if i >= 2 && j >= 2 {
        assert(copy_name(base, i).subrange(p.len() as int, copy_name(base, i).len() as int) =~= decimal(i));
        assert(copy_name(base, j).subrange(p.len() as int, copy_name(base, j).len() as int) =~= decimal(j));
        lemma_decimal_injective(i, j);
    } else if i >= 2 {
        lemma_decimal_nonempty(i);
        assert(" 副本"@.len() == 3);
        assert(" 副本 "@.len() == 4);
        assert(copy_name(base, i).len() == base.len() + 4 + decimal(i).len());
        assert(copy_name(base, j).len() == base.len() + 3);
    } else if j >= 2 {
        lemma_decimal_nonempty(j);
        assert(" 副本"@.len() == 3);
        assert(" 副本 "@.len() == 4);
        assert(copy_name(base, j).len() == base.len() + 4 + decimal(j).len());
        assert(copy_name(base, i).len() == base.len() + 3);
    }
}

/// If the first `idx - 1` copy names all occur in `names`, then `names` has at
/// least `idx - 1` entries: distinct names cannot share one slot.
proof fn lemma_copy_names_fit(base: Seq<char>, names: Seq<Seq<char>>, idx: nat)
    requires
        idx >= 2,
        forall|k: nat| 1 <= k < idx ==> names.contains(#[trigger] copy_name(base, k)),
    ensures
        idx - 1 <= names.len(),
{
    let x = vstd::set_lib::set_int_range(1, idx as int);
    let f = |k: int| copy_name(base, k as nat);
    vstd::set_lib::lemma_int_range(1, idx as int);
    assert(vstd::relations::injective_on(f, x)) by {
        assert forall|a: int, b: int| x.contains(a) && x.contains(b) && #[trigger] f(a) == #[trigger] f(b) implies a == b by {
            lemma_copy_name_injective(base, a as nat, b as nat);
            if a < 2 && b < 2 {
                assert(a == 1 && b == 1);
            }
        }
    }
    let y = x.map(f);
    vstd::set_lib::lemma_map_size(x, y, f);
    let all = names.to_set();
    assert(y.subset_of(all)) by {
        assert forall|n: Seq<char>| y.contains(n) implies all.contains(n) by {
            let k = choose|k: int| x.contains(k) && f(k) == n;
            assert(names.contains(copy_name(base, k as nat)));
        }
    }
    vstd::seq_lib::seq_to_set_is_finite(names);
    vstd::set_lib::lemma_len_subset(y, all);
    names.lemma_cardinality_of_set();
}

/// Appends `"{base} 副本 {index}"`.
fn copy_name_at(base: &str, index: u128) -> (r: String)
    requires
        index >= 2,
    ensures
        r@ == copy_name(base@, index as nat),
{
    let mut r = String::new();
    r.append(base);
    r.append(" 副本 ");
    push_decimal(&mut r, index);
    r
}

/// A name for a copy of `base` that is not yet taken: `"{base} 副本"` if it
/// is free, else `"{base} 副本 {n}"` for the smallest free `n` from 2 on.
pub fn unique_copy_name(base: &str, existing_names: &[&str]) -> (r: String)
    ensures
        !str_views(existing_names@).contains(r@),
        exists|k: nat| #![trigger copy_name(base@, k)]
            k >= 1 && r@ == copy_name(base@, k) && forall|j: nat|
                1 <= j < k ==> str_views(existing_names@).contains(#[trigger] copy_name(base@, j)),
{
    let ghost names = str_views(existing_names@);
    let mut candidate = String::new();
    candidate.append(base);
    candidate.append(" 副本");
    assert(candidate@ == copy_name(base@, 1));
    if !contains_str(existing_names, candidate.as_str()) {
        assert(forall|j: nat| 1 <= j < 1 ==> names.contains(#[trigger] copy_name(base@, j)));
        return candidate;
    }
    proof {
        assert forall|j: nat| 1 <= j < 2 implies names.contains(#[trigger] copy_name(base@, j)) by {
            assert(copy_name(base@, j) == copy_name(base@, 1));
        }
        lemma_copy_names_fit(base@, names, 2);
    }
    let count = existing_names.len();
    let mut index: u128 = 2;
    loop
        invariant
            names == str_views(existing_names@),
            names.len() == count,
            2 <= index <= names.len() + 1,
            forall|j: nat| 1 <= j < index ==> names.contains(#[trigger] copy_name(base@, j)),
        decreases names.len() + 1 - index,
    {
        let candidate = copy_name_at(base, index);
        if !contains_str(existing_names, candidate.as_str()) {
            return candidate;
        }
        proof {
            assert forall|j: nat| 1 <= j < index + 1 implies names.contains(#[trigger] copy_name(base@, j)) by {
                if j == index {
                    assert(candidate@ == copy_name(base@, index as nat));
                }
            }
            lemma_copy_names_fit(base@, names, (index + 1) as nat);
        }
        index = index + 1;
    }
}

/// The names of saved connections.
pub open spec fn profile_names(profiles: Seq<SessionProfile>) -> Seq<Seq<char>> {
    profiles.map_values(|p: SessionProfile| p.name@)
}

/// Whether `name` is the first copy name of `base` (`base 副本`, then
/// `base 副本 2`, ...) that none of `names` takes.
pub open spec fn is_first_free_copy_name(base: Seq<char>, names: Seq<Seq<char>>, name: Seq<char>) -> bool {
    &&& !names.contains(name)
    &&& exists|k: nat| #![trigger copy_name(base, k)]
        k >= 1 && name == copy_name(base, k) && forall|j: nat| 1 <= j < k ==> names.contains(#[trigger] copy_name(base, j))
}

/// A copy of a saved connection under the first copy name that no saved
/// connection uses; group and settings are kept.
pub fn duplicate_profile(profile: &SessionProfile, existing: &[SessionProfile]) -> (r: SessionProfile)
    ensures
        is_first_free_copy_name(profile.name@, profile_names(existing@), r.name@),
        r.group == profile.group,
        same_params(r.params, profile.params),
{
    let mut names: Vec<&str> = Vec::new();
    let mut i: usize = 0;
    while i < existing.len()
        invariant
            i <= existing@.len(),
            str_views(names@) == profile_names(existing@).take(i as int),
        decreases existing@.len() - i,
    {
        let ghost before = str_views(names@);
        names.push(existing[i].name.as_str());
        assert(str_views(names@) =~= before.push(existing@[i as int].name@));
        assert(profile_names(existing@).take(i as int + 1) =~= profile_names(existing@).take(i as int).push(
            existing@[i as int].name@,
        ));
        i = i + 1;
    }
    assert(profile_names(existing@).take(existing@.len() as int) =~= profile_names(existing@));
    let name = unique_copy_name(profile.name.as_str(), names.as_slice());
    SessionProfile { name, group: clone_opt_string(&profile.group), params: clone_params(&profile.params) }
}

/// The sidebar group of a saved connection, given its group name as
/// normalized (`None` when it has none, or none that is valid).
pub open spec fn group_key(normalized: Option<String>) -> Seq<char> {
    match normalized {
        Some(g) => g@,
        None => DEFAULT_GROUP_NAME@,
    }
}

/// Whether names are in strictly increasing code-point order (so each once).
pub open spec fn strictly_sorted(s: Seq<Seq<char>>) -> bool {
    forall|i: int, j: int| 0 <= i < j < s.len() ==> seq_lt(#[trigger] s[i], #[trigger] s[j])
}

/// Whether a declared group, as normalized, is the valid name `name`.
pub open spec fn declares_group(normalized: Option<String>, name: Seq<char>) -> bool {
    match normalized {
        Some(g) => g@ == name,
        None => false,
    }
}

/// The names of the groups: every valid declared group, and the group of
/// every saved connection.
pub open spec fn is_group_name(name: Seq<char>, profile_groups: Seq<Option<String>>, groups: Seq<Option<String>>) -> bool {
    (exists|j: int| 0 <= j < groups.len() && declares_group(#[trigger] groups[j], name))
        || (exists|i: int| 0 <= i < profile_groups.len() && group_key(#[trigger] profile_groups[i]) == name)
}

/// The saved connections of a group, in their saved order.
pub open spec fn group_members(profiles: Seq<SessionProfile>, profile_groups: Seq<Option<String>>, name: Seq<char>) -> Seq<SessionProfile>
    decreases profiles.len(),
{
    if profiles.len() == 0 {
        Seq::empty()
    } else {
        let rest = group_members(profiles.drop_last(), profile_groups, name);
        if group_key(profile_groups[profiles.len() - 1]) == name {
            rest.push(profiles.last())
        } else {
            rest
        }
    }
}

/// The names of listed groups.
pub open spec fn group_names(groups: Seq<(String, Vec<SessionProfile>)>) -> Seq<Seq<char>> {
    groups.map_values(|g: (String, Vec<SessionProfile>)| g.0@)
}

/// Whether two lists hold the same profiles in the same order.
pub open spec fn same_profiles(a: Seq<SessionProfile>, b: Seq<SessionProfile>) -> bool {
    a.len() == b.len() && forall|i: int| 0 <= i < a.len() ==> same_profile(#[trigger] a[i], b[i])
}

/// The characters of each string.
pub open spec fn name_views(v: Seq<String>) -> Seq<Seq<char>> {
    v.map_values(|s: String| s@)
}

/// Whether `a` comes before `b` in code-point order.
fn name_before(a: &str, b: &str) -> (r: bool)
    ensures
        r == seq_lt(a@, b@),
{
    let av = chars_of(a);
    let bv = chars_of(b);
    chars_lt(&av, &bv)
}

/// Adds a name to a strictly sorted list unless it is there.
fn insert_group_name(names: &mut Vec<String>, name: String)
    requires
        strictly_sorted(name_views(old(names)@)),
    ensures
        strictly_sorted(name_views(final(names)@)),
        forall|s: Seq<char>| #[trigger] name_views(final(names)@).contains(s) <==> (name_views(old(names)@).contains(s)
            || s == name@),
{
    let ghost old_views = name_views(names@);
    let mut p: usize = 0;
    while p < names.len() && name_before(names[p].as_str(), name.as_str())
        invariant
            p <= names@.len(),
            name_views(names@) == old_views,
            strictly_sorted(old_views),
            forall|j: int| 0 <= j < p ==> seq_lt(#[trigger] old_views[j], name@),
        decreases names@.len() - p,
    {
        p = p + 1;
    }
    if p < names.len() {
        if !name_before(name.as_str(), names[p].as_str()) {
            proof {
                if old_views[p as int] != name@ {
                    lemma_seq_lt_total(old_views[p as int], name@);
                }
            }
            assert(old_views[p as int] == name@);
            return;
        }
        proof {
            assert forall|j: int| p < j < old_views.len() implies seq_lt(name@, #[trigger] old_views[j]) by {
                assert(seq_lt(old_views[p as int], old_views[j]));
                lemma_seq_lt_transitive(name@, old_views[p as int], old_views[j]);
            }
        }
    }
    let ghost f = name@;
    names.insert(p, name);
    proof {
        let nvs = name_views(names@);
        old_views.insert_ensures(p as int, f);
        assert(nvs =~= old_views.insert(p as int, f));
        assert forall|i: int, j: int| 0 <= i < j < nvs.len() implies seq_lt(#[trigger] nvs[i], #[trigger] nvs[j]) by {
            if j < p {
                assert(nvs[i] == old_views[i] && nvs[j] == old_views[j]);
            } else if j == p {
                assert(nvs[i] == old_views[i]);
            } else if i < p {
                assert(nvs[i] == old_views[i] && nvs[j] == old_views[j - 1]);
            } else if i == p {
                assert(nvs[j] == old_views[j - 1]);
            } else {
                assert(nvs[i] == old_views[i - 1] && nvs[j] == old_views[j - 1]);
            }
        }
        assert forall|s: Seq<char>| #[trigger] nvs.contains(s) <==> (old_views.contains(s) || s == f) by {
            if nvs.contains(s) {
                let k = choose|k: int| 0 <= k < nvs.len() && nvs[k] == s;
                if k < p {
                    assert(old_views[k] == s);
                } else if k > p {
                    assert(old_views[k - 1] == s);
                }
            }
            if old_views.contains(s) {
                let k = choose|k: int| 0 <= k < old_views.len() && old_views[k] == s;
                if k < p {
                    assert(nvs[k] == s);
                } else {
                    assert(nvs[k + 1] == s);
                }
            }
            if s == f {
                assert(nvs[p as int] == s);
            }
        }
    }
}

/// The saved connections of the listed groups, one group after another.
pub open spec fn concat_groups(profiles: Seq<SessionProfile>, profile_groups: Seq<Option<String>>, names: Seq<Seq<char>>) -> Seq<
    SessionProfile,
>
    decreases names.len(),
{
    if names.len() == 0 {
        Seq::empty()
    } else {
        concat_groups(profiles, profile_groups, names.drop_last()) + group_members(profiles, profile_groups, names.last())
    }
}

/// The saved connections whose group is one of `names`, in saved order.
pub open spec fn members_of_any(profiles: Seq<SessionProfile>, profile_groups: Seq<Option<String>>, names: Seq<Seq<char>>) -> Seq<
    SessionProfile,
>
    decreases profiles.len(),
{
    if profiles.len() == 0 {
        Seq::empty()
    } else {
        let rest = members_of_any(profiles.drop_last(), profile_groups, names);
        if names.contains(group_key(profile_groups[profiles.len() - 1])) {
            rest.push(profiles.last())
        } else {
            rest
        }
    }
}

proof fn lemma_members_of_one_more_group(
    profiles: Seq<SessionProfile>,
    profile_groups: Seq<Option<String>>,
    names: Seq<Seq<char>>,
    name: Seq<char>,
)
    requires
        !names.contains(name),
    ensures
        members_of_any(profiles, profile_groups, names.push(name)).to_multiset() =~= members_of_any(
            profiles,
            profile_groups,
            names,
        ).to_multiset().add(group_members(profiles, profile_groups, name).to_multiset()),
    decreases profiles.len(),
{
    broadcast use vstd::multiset::group_multiset_axioms, vstd::seq_lib::group_to_multiset_ensures;

    if profiles.len() > 0 {
        let pre = profiles.drop_last();
        lemma_members_of_one_more_group(pre, profile_groups, names, name);
        let k = group_key(profile_groups[profiles.len() - 1]);
        assert(names.push(name).contains(k) <==> (names.contains(k) || k == name)) by {
            if names.push(name).contains(k) {
                let j = choose|j: int| 0 <= j < names.push(name).len() && names.push(name)[j] == k;
                if j < names.len() {
                    assert(names[j] == k);
                }
            }
            if names.contains(k) {
                let j = choose|j: int| 0 <= j < names.len() && names[j] == k;
                assert(names.push(name)[j] == k);
            }
            if k == name {
                assert(names.push(name)[names.len() as int] == k);
            }
        }
    }
}

proof fn lemma_concat_is_members_of_any(profiles: Seq<SessionProfile>, profile_groups: Seq<Option<String>>, names: Seq<Seq<char>>)
    requires
        strictly_sorted(names),
    ensures
        concat_groups(profiles, profile_groups, names).to_multiset() =~= members_of_any(profiles, profile_groups, names).to_multiset(),
    decreases names.len(),
{
    broadcast use vstd::multiset::group_multiset_axioms, vstd::seq_lib::group_to_multiset_ensures;

    if names.len() == 0 {
        lemma_members_of_no_group(profiles, profile_groups, names);
    } else {
        let pre = names.drop_last();
        assert(strictly_sorted(pre)) by {
            assert forall|i: int, j: int| 0 <= i < j < pre.len() implies seq_lt(#[trigger] pre[i], #[trigger] pre[j]) by {
                assert(pre[i] == names[i] && pre[j] == names[j]);
            }
        }
        lemma_concat_is_members_of_any(profiles, profile_groups, pre);
        assert(!pre.contains(names.last())) by {
            if pre.contains(names.last()) {
                let j = choose|j: int| 0 <= j < pre.len() && pre[j] == names.last();
                assert(seq_lt(names[j], names[names.len() - 1]));
                lemma_seq_lt_irreflexive(names.last());
            }
        }
        lemma_members_of_one_more_group(profiles, profile_groups, pre, names.last());
        assert(pre.push(names.last()) =~= names);
        vstd::seq_lib::lemma_multiset_commutative(
            concat_groups(profiles, profile_groups, pre),
            group_members(profiles, profile_groups, names.last()),
        );
    }
}

proof fn lemma_members_of_no_group(profiles: Seq<SessionProfile>, profile_groups: Seq<Option<String>>, names: Seq<Seq<char>>)
    requires
        names.len() == 0,
    ensures
        members_of_any(profiles, profile_groups, names) =~= Seq::<SessionProfile>::empty(),
    decreases profiles.len(),
{
    if profiles.len() > 0 {
        lemma_members_of_no_group(profiles.drop_last(), profile_groups, names);
    }
}

proof fn lemma_members_of_all_groups(profiles: Seq<SessionProfile>, profile_groups: Seq<Option<String>>, names: Seq<Seq<char>>)
    requires
        profile_groups.len() == profiles.len(),
        forall|i: int| 0 <= i < profiles.len() ==> names.contains(group_key(#[trigger] profile_groups[i])),
    ensures
        members_of_any(profiles, profile_groups, names) =~= profiles,
    decreases profiles.len(),
{
    lemma_members_of_all_groups_prefix(profiles, profile_groups, names, profiles.len() as int);
    assert(profiles.take(profiles.len() as int) =~= profiles);
}

proof fn lemma_members_of_all_groups_prefix(
    profiles: Seq<SessionProfile>,
    profile_groups: Seq<Option<String>>,
    names: Seq<Seq<char>>,
    n: int,
)
    requires
        0 <= n <= profiles.len(),
        profile_groups.len() == profiles.len(),
        forall|i: int| 0 <= i < profiles.len() ==> names.contains(group_key(#[trigger] profile_groups[i])),
    ensures
        members_of_any(profiles.take(n), profile_groups, names) =~= profiles.take(n),
    decreases n,
{
    if n > 0 {
        lemma_members_of_all_groups_prefix(profiles, profile_groups, names, n - 1);
        assert(profiles.take(n).drop_last() =~= profiles.take(n - 1));
        assert(names.contains(group_key(profile_groups[n - 1])));
    }
    if n == profiles.len() {
        assert(profiles.take(n) =~= profiles);
    }
}

/// Grouping neither loses nor repeats a saved connection: when the listed
/// names are distinct and include the group of every connection, the
/// groups' members, one group after another, are the saved connections
/// rearranged.
pub proof fn law_groups_hold_every_connection_once(
    profiles: Seq<SessionProfile>,
    profile_groups: Seq<Option<String>>,
    names: Seq<Seq<char>>,
)
    requires
        profile_groups.len() == profiles.len(),
        strictly_sorted(names),
        forall|i: int| 0 <= i < profiles.len() ==> names.contains(group_key(#[trigger] profile_groups[i])),
    ensures
        concat_groups(profiles, profile_groups, names).to_multiset() == profiles.to_multiset(),
{
    lemma_concat_is_members_of_any(profiles, profile_groups, names);
    lemma_members_of_all_groups(profiles, profile_groups, names);
}

/// The group of a saved connection, given its normalized group name.
fn group_of(normalized: &Option<String>) -> (r: String)
    ensures
        r@ == group_key(*normalized),
{
    match normalized {
        Some(g) => g.clone(),
        None => owned(DEFAULT_GROUP_NAME),
    }
}

/// The sidebar's groups in name order, each with its saved connections in
/// their saved order. `profile_groups[i]` is the normalized group name of
/// `profiles[i]`; connections without one go to the default group. Every
/// valid name of `groups` is listed, even when it holds no connection.
pub fn group_profiles(profiles: &[SessionProfile], profile_groups: &[Option<String>], groups: &[Option<String>]) -> (r: Vec<(String, Vec<SessionProfile>)>)
    requires
        profile_groups@.len() == profiles@.len(),
    ensures
        strictly_sorted(group_names(r@)),
        forall|name: Seq<char>| #[trigger] group_names(r@).contains(name)
            <==> is_group_name(name, profile_groups@, groups@),
        forall|k: int| 0 <= k < r@.len() ==> same_profiles(#[trigger] r@[k].1@, group_members(profiles@, profile_groups@, r@[k].0@)),
        concat_groups(profiles@, profile_groups@, group_names(r@)).to_multiset() == profiles@.to_multiset(),
{
    let mut names: Vec<String> = Vec::new();
    let mut j: usize = 0;
    while j < groups.len()
        invariant
            j <= groups@.len(),
            strictly_sorted(name_views(names@)),
            forall|s: Seq<char>| #[trigger] name_views(names@).contains(s) <==> exists|m: int| 0 <= m < j && declares_group(#[trigger] groups@[m], s),
        decreases groups@.len() - j,
    {
        match &groups[j] {
            Some(g) => {
                insert_group_name(&mut names, g.clone());
            },
            None => {},
        }
        j = j + 1;
    }
    let mut i: usize = 0;
    while i < profile_groups.len()
        invariant
            i <= profile_groups@.len(),
            strictly_sorted(name_views(names@)),
            forall|s: Seq<char>| #[trigger] name_views(names@).contains(s) <==> ((exists|m: int| 0 <= m < groups@.len() && declares_group(#[trigger] groups@[m], s))
                || exists|m: int| 0 <= m < i && group_key(#[trigger] profile_groups@[m]) == s),
        decreases profile_groups@.len() - i,
    {
        insert_group_name(&mut names, group_of(&profile_groups[i]));
        i = i + 1;
    }
    let mut result: Vec<(String, Vec<SessionProfile>)> = Vec::new();
    let mut k: usize = 0;
    while k < names.len()
        invariant
            k <= names@.len(),
            profile_groups@.len() == profiles@.len(),
            group_names(result@) == name_views(names@).take(k as int),
            forall|m: int| 0 <= m < result@.len() ==> same_profiles(#[trigger] result@[m].1@, group_members(profiles@, profile_groups@, result@[m].0@)),
        decreases names@.len() - k,
    {
        let key = names[k].as_str();
        let mut members: Vec<SessionProfile> = Vec::new();
        let mut p: usize = 0;
        while p < profiles.len()
            invariant
                p <= profiles@.len(),
                profile_groups@.len() == profiles@.len(),
                same_profiles(members@, group_members(profiles@.take(p as int), profile_groups@, key@)),
            decreases profiles@.len() - p,
        {
            let ghost before = members@;
            assert(profiles@.take(p as int + 1).drop_last() =~= profiles@.take(p as int));
            let g = group_of(&profile_groups[p]);
            if crate::text::str_eq(g.as_str(), key) {
                members.push(clone_profile(&profiles[p]));
                assert(members@ =~= before.push(members@.last()));
            }
            p = p + 1;
        }
        assert(profiles@.take(profiles@.len() as int) =~= profiles@);
        let ghost before = result@;
        result.push((names[k].clone(), members));
        assert(group_names(result@) =~= group_names(before).push(names@[k as int]@));
        assert(name_views(names@).take(k as int + 1) =~= name_views(names@).take(k as int).push(names@[k as int]@));
        k = k + 1;
    }
    assert(name_views(names@).take(names@.len() as int) =~= name_views(names@));
    proof {
        assert forall|i: int| 0 <= i < profiles@.len() implies group_names(result@).contains(
            group_key(#[trigger] profile_groups@[i]),
        ) by {
            assert(name_views(names@).contains(group_key(profile_groups@[i])));
        }
        law_groups_hold_every_connection_once(profiles@, profile_groups@, group_names(result@));
    }
    result
}

} // verus!
