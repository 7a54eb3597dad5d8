//! The main window: its CSS classes, which status lines become
//! notifications, and the connection form opened for a new or a saved
//! connection.

use vstd::prelude::*;
use crate::config::{AuthMethod, SessionProfile};
use crate::config::{ConnectParams, ProxyConfig};
use crate::dialog::{
    auth_methods_from_inputs, auth_methods_match, first_key_path, first_public_key_path, is_clean_proxy, is_clean_text,
    lemma_port_text_round_trip, law_proxy_fields_round_trip, parse_u16, proxy_fields, proxy_from_inputs, proxy_matches_inputs,
    proxy_mode, spec_parse_u16, spec_proxy_fields, spec_proxy_kind, spec_proxy_mode, username_matches,
};
use crate::text::{trim_ws, trimmed};
use crate::i18n::AppText;
use crate::terminal::{contains_run, is_substring};
use crate::text::{chars_of, decimal, owned, push_decimal, str_eq};

verus! {

/// Which divider of the workbench is being dragged.
#[derive(Clone, Copy, Debug, PartialEq, Eq, Structural)]
pub enum ResizeKind {
    /// The sidebar's width.
    SidebarWidth,
    /// The SFTP panel's height.
    SftpHeight,
}

/// How the workbench splits its terminals.
#[derive(Clone, Copy, Debug, PartialEq, Eq, Structural)]
pub enum SplitMode {
    Horizontal,
    Vertical,
}

/// The theme class: light for the default light theme, dark otherwise.
pub fn theme_class_for(is_light: bool) -> (r: &'static str)
    ensures
        r@ == if is_light { "theme-light"@ } else { "theme-dark"@ },
{
    if is_light {
        "theme-light"
    } else {
        "theme-dark"
    }
}

/// The class of the top-level window: the theme, whether it is the phone
/// shell, and which divider is being dragged.
pub open spec fn spec_window_class(active_resize: Option<ResizeKind>, is_light: bool, is_phone: bool) -> Seq<char> {
    "kt-window "@ + (if is_light { "theme-light"@ } else { "theme-dark"@ }) + (if is_phone {
        " is-phone"@
    } else {
        Seq::empty()
    }) + match active_resize {
        Some(ResizeKind::SidebarWidth) => " is-resizing is-resizing-x"@,
        Some(ResizeKind::SftpHeight) => " is-resizing is-resizing-y"@,
        None => Seq::empty(),
    }
}

/// The class of the top-level window.
pub fn window_class(active_resize: Option<ResizeKind>, is_light: bool, is_phone: bool) -> (r: String)
    ensures
        r@ == spec_window_class(active_resize, is_light, is_phone),
{
    let mut class = String::new();
    class.append("kt-window ");
    class.append(theme_class_for(is_light));
    if is_phone {
        class.append(" is-phone");
    }
    match active_resize {
        Some(ResizeKind::SidebarWidth) => class.append(" is-resizing is-resizing-x"),
        Some(ResizeKind::SftpHeight) => class.append(" is-resizing is-resizing-y"),
        None => {},
    }
    class
}

/// Whether a status line only repeats what the window already shows: the
/// idle hint, or a line that says the session is connected and ready.
pub open spec fn is_redundant_status(status: Seq<char>, text: AppText) -> bool {
    status == text.ready_hint@ || (is_substring(text.connected@, status) && is_substring(text.ready@, status))
}

/// Whether `needle` occurs in `hay`.
fn str_contains(hay: &str, needle: &str) -> (r: bool)
    ensures
        r == is_substring(needle@, hay@),
{
    let h = chars_of(hay);
    let n = chars_of(needle);
    contains_run(&h, &n)
}

/// The status line to show as a notification, if any: redundant
/// connection statuses are dropped.
pub fn status_notification_text(status_detail: Option<String>, text: &AppText) -> (r: Option<String>)
    ensures
        match status_detail {
            Some(s) => if is_redundant_status(s@, *text) {
                r is None
            } else {
                r == Some(s)
            },
            None => r is None,
        },
{
    match status_detail {
        Some(status) => {
            if str_eq(status.as_str(), text.ready_hint) || (str_contains(status.as_str(), text.connected) && str_contains(
                status.as_str(),
                text.ready,
            )) {
                None
            } else {
                Some(status)
            }
        },
        None => None,
    }
}

/// The sidebar's collapsed state after its toggle is pressed.
pub fn toggled_sidebar_collapsed(sidebar_collapsed: bool) -> (r: bool)
    ensures
        r == !sidebar_collapsed,
{
    !sidebar_collapsed
}

/// The fields of the connection dialog.
#[derive(Clone, Debug, PartialEq, Eq)]
pub struct ConnectionForm {
    /// `new` or `edit`.
    pub mode: String,
    /// The saved name being edited, empty for a new connection.
    pub original_name: String,
    pub name: String,
    pub host: String,
    pub port: String,
    pub user: String,
    pub group: String,
    pub password: String,
    pub key_path: String,
    pub proxy_jump: String,
    pub proxy_type: String,
    pub proxy_host: String,
    pub proxy_port: String,
    pub proxy_username: String,
    pub use_agent: bool,
    pub forward_agent: bool,
}

/// The text of an optional string field: its value or empty.
pub open spec fn opt_text(o: Option<String>) -> Seq<char> {
    match o {
        Some(s) => s@,
        None => Seq::empty(),
    }
}

/// Whether the form is the blank form for a new connection on port 22
/// without proxy.
pub open spec fn is_new_connection_form(f: ConnectionForm) -> bool {
    &&& f.mode@ == "new"@
    &&& f.original_name@ == Seq::<char>::empty()
    &&& f.name@ == Seq::<char>::empty()
    &&& f.host@ == Seq::<char>::empty()
    &&& f.port@ == "22"@
    &&& f.user@ == Seq::<char>::empty()
    &&& f.group@ == Seq::<char>::empty()
    &&& f.password@ == Seq::<char>::empty()
    &&& f.key_path@ == Seq::<char>::empty()
    &&& f.proxy_jump@ == Seq::<char>::empty()
    &&& f.proxy_type@ == "direct"@
    &&& f.proxy_host@ == Seq::<char>::empty()
    &&& f.proxy_port@ == Seq::<char>::empty()
    &&& f.proxy_username@ == Seq::<char>::empty()
    &&& !f.use_agent
    &&& !f.forward_agent
}

/// Whether the form shows a saved connection for editing: its name, target,
/// group, first key file, jump host and proxy, with the password left
/// blank (it stays in the vault).
pub open spec fn is_edit_form(f: ConnectionForm, profile: SessionProfile) -> bool {
    let p = profile.params;
    let proxy = spec_proxy_fields(p.proxy);
    &&& f.mode@ == "edit"@
    &&& f.original_name@ == profile.name@
    &&& f.name@ == profile.name@
    &&& f.host@ == p.host@
    &&& f.port@ == decimal(p.port as nat)
    &&& f.user@ == p.user@
    &&& f.group@ == opt_text(profile.group)
    &&& f.password@ == Seq::<char>::empty()
    &&& f.key_path@ == first_key_path(p.auth@)
    &&& f.proxy_jump@ == opt_text(p.proxy_jump)
    &&& f.proxy_type@ == spec_proxy_mode(p)
    &&& f.proxy_host@ == proxy.0
    &&& f.proxy_port@ == proxy.1
    &&& f.proxy_username@ == proxy.2
    &&& f.use_agent == p.auth@.contains(AuthMethod::Agent)
    &&& f.forward_agent == p.forward_agent
}

/// The text of an optional string.
fn text_of(o: &Option<String>) -> (r: String)
    ensures
        r@ == opt_text(*o),
{
    match o {
        Some(s) => s.clone(),
        None => String::new(),
    }
}

/// Whether the methods include the agent.
fn uses_agent(auth: &Vec<AuthMethod>) -> (r: bool)
    ensures
        r == auth@.contains(AuthMethod::Agent),
{
    let mut i: usize = 0;
    while i < auth.len()
        invariant
            i <= auth@.len(),
            forall|j: int| 0 <= j < i ==> auth@[j] != AuthMethod::Agent,
        decreases auth@.len() - i,
    {
        if let AuthMethod::Agent = &auth[i] {
            assert(auth@[i as int] == AuthMethod::Agent);
            return true;
        }
        i = i + 1;
    }
    false
}

impl ConnectionForm {
    /// The blank form for a new connection.
    pub fn new_connection() -> (r: ConnectionForm)
        ensures
            is_new_connection_form(r),
    {
        ConnectionForm {
            mode: owned("new"),
            original_name: String::new(),
            name: String::new(),
            host: String::new(),
            port: owned("22"),
            user: String::new(),
            group: String::new(),
            password: String::new(),
            key_path: String::new(),
            proxy_jump: String::new(),
            proxy_type: owned("direct"),
            proxy_host: String::new(),
            proxy_port: String::new(),
            proxy_username: String::new(),
            use_agent: false,
            forward_agent: false,
        }
    }

    /// The form for editing a saved connection.
    pub fn edit(profile: &SessionProfile) -> (r: ConnectionForm)
        ensures
            is_edit_form(r, *profile),
    {
        let p = &profile.params;
        let mut port = String::new();
        push_decimal(&mut port, p.port as u128);
        let (proxy_host, proxy_port, proxy_username) = proxy_fields(&p.proxy);
        ConnectionForm {
            mode: owned("edit"),
            original_name: profile.name.clone(),
            name: profile.name.clone(),
            host: p.host.clone(),
            port,
            user: p.user.clone(),
            group: text_of(&profile.group),
            password: String::new(),
            key_path: first_public_key_path(p.auth.as_slice()),
            proxy_jump: text_of(&p.proxy_jump),
            proxy_type: owned(proxy_mode(p)),
            proxy_host,
            proxy_port,
            proxy_username,
            use_agent: uses_agent(&p.auth),
            forward_agent: p.forward_agent,
        }
    }
}

/// Where the desktop title bar puts the window controls.
#[derive(Clone, Copy, Debug, PartialEq, Eq, Structural)]
pub enum DesktopTitlebarLayout {
    /// macOS: the window controls come first, before the drag area.
    Macos,
    /// Elsewhere: the window controls come last.
    Standard,
}

/// The title bar layout of the platform.
pub fn titlebar_layout_for_platform(is_macos: bool) -> (r: DesktopTitlebarLayout)
    ensures
        r == if is_macos { DesktopTitlebarLayout::Macos } else { DesktopTitlebarLayout::Standard },
{
    if is_macos {
        DesktopTitlebarLayout::Macos
    } else {
        DesktopTitlebarLayout::Standard
    }
}

/// The set of the names in a list.
pub closed spec fn names_set(names: Seq<String>) -> Set<Seq<char>> {
    Set::new(|name: Seq<char>| exists|i: int| 0 <= i < names.len() && #[trigger] names[i]@ == name)
}

/// The names of the collapsed connection groups in the sidebar, each once.
pub struct CollapsedGroups {
    names: Vec<String>,
}

impl View for CollapsedGroups {
    type V = Set<Seq<char>>;

    closed spec fn view(&self) -> Set<Seq<char>> {
        names_set(self.names@)
    }
}

impl CollapsedGroups {
    #[verifier::type_invariant]
    closed spec fn each_name_once(self) -> bool {
        forall|i: int, j: int| 0 <= i < j < self.names@.len() ==> #[trigger] self.names@[i]@ != #[trigger] self.names@[j]@
    }

    /// No group is collapsed.
    pub fn new() -> (r: CollapsedGroups)
        ensures
            r@ == Set::<Seq<char>>::empty(),
    {
        let r = CollapsedGroups { names: Vec::new() };
        assert(r@ =~= Set::<Seq<char>>::empty());
        r
    }

    /// The position of a name.
    fn position(&self, name: &str) -> (r: Option<usize>)
        ensures
            match r {
                Some(i) => i < self.names@.len() && self.names@[i as int]@ == name@,
                None => !self@.contains(name@),
            },
    {
        let mut i: usize = 0;
        while i < self.names.len()
            invariant
                i <= self.names@.len(),
                forall|j: int| 0 <= j < i ==> self.names@[j]@ != name@,
            decreases self.names@.len() - i,
        {
            if str_eq(self.names[i].as_str(), name) {
                return Some(i);
            }
            i = i + 1;
        }
        None
    }

    /// Whether the group is collapsed.
    pub fn contains(&self, name: &str) -> (r: bool)
        ensures
            r == self@.contains(name@),
    {
        match self.position(name) {
            Some(i) => {
                assert(self.names@[i as int]@ == name@);
                true
            },
            None => false,
        }
    }
}

/// Collapses an expanded group or expands a collapsed one; returns whether
/// the group is collapsed now.
pub fn toggle_collapsed_group(collapsed_groups: &mut CollapsedGroups, group_name: &str) -> (r: bool)
    ensures
        r == !old(collapsed_groups)@.contains(group_name@),
        r ==> final(collapsed_groups)@ == old(collapsed_groups)@.insert(group_name@),
        !r ==> final(collapsed_groups)@ == old(collapsed_groups)@.remove(group_name@),
{
    proof {
        use_type_invariant(&*collapsed_groups);
    }
    let ghost before = collapsed_groups@;
    let ghost old_names = collapsed_groups.names@;
    match collapsed_groups.position(group_name) {
        Some(k) => {
            let mut names_vec: Vec<String> = Vec::new();
            std::mem::swap(&mut names_vec, &mut collapsed_groups.names);
            let _ = names_vec.remove(k);
            proof {
                let names = names_vec@;
                assert(names =~= old_names.remove(k as int));
                assert forall|i: int, j: int| 0 <= i < j < names.len() implies #[trigger] names[i]@ != #[trigger] names[j]@ by {
                    let oi = if i < k { i } else { i + 1 };
                    let oj = if j < k { j } else { j + 1 };
                    assert(names[i] == old_names[oi] && names[j] == old_names[oj]);
                }
                assert forall|name: Seq<char>| names_set(names).contains(name) <==> #[trigger] before.remove(group_name@).contains(name) by {
                    if names_set(names).contains(name) {
                        let i = choose|i: int| 0 <= i < names.len() && #[trigger] names[i]@ == name;
                        let oi = if i < k { i } else { i + 1 };
                        assert(names[i] == old_names[oi]);
                        assert(old_names[oi]@ != old_names[k as int]@);
                    }
                    if before.remove(group_name@).contains(name) {
                        let oi = choose|oi: int| 0 <= oi < old_names.len() && #[trigger] old_names[oi]@ == name;
                        assert(oi != k);
                        let i = if oi < k { oi } else { oi - 1 };
                        assert(names[i] == old_names[oi]);
                    }
                }
            }
            assert(names_set(names_vec@) =~= before.remove(group_name@));
            collapsed_groups.names = names_vec;
            false
        },
        None => {
            let ghost g = group_name@;
            let mut names_vec: Vec<String> = Vec::new();
            std::mem::swap(&mut names_vec, &mut collapsed_groups.names);
            names_vec.push(owned(group_name));
            proof {
                let names = names_vec@;
                assert(names =~= old_names.push(names.last()));
                assert forall|name: Seq<char>| names_set(names).contains(name) <==> #[trigger] before.insert(g).contains(name) by {
                    if names_set(names).contains(name) {
                        let i = choose|i: int| 0 <= i < names.len() && #[trigger] names[i]@ == name;
                        if i < old_names.len() {
                            assert(names[i] == old_names[i]);
                        }
                    }
                    if before.contains(name) {
                        let oi = choose|oi: int| 0 <= oi < old_names.len() && #[trigger] old_names[oi]@ == name;
                        assert(names[oi] == old_names[oi]);
                    }
                    if name == g {
                        assert(names[old_names.len() as int]@ == g);
                    }
                }
                assert forall|i: int, j: int| 0 <= i < j < names.len() implies #[trigger] names[i]@ != #[trigger] names[j]@ by {
                    if j == old_names.len() {
                        assert(names[i] == old_names[i]);
                    } else {
                        assert(names[i] == old_names[i] && names[j] == old_names[j]);
                    }
                }
            }
            assert(names_set(names_vec@) =~= before.insert(g));
            collapsed_groups.names = names_vec;
            true
        },
    }
}

/// Whether an optional value is the trimmed text `t`: absent exactly when
/// the text is blank.
pub open spec fn optional_trimmed(o: Option<String>, text: Seq<char>) -> bool {
    let t = trim_ws(text);
    match o {
        Some(v) => t.len() > 0 && v@ == t,
        None => t.len() == 0,
    }
}

/// The trimmed text, or `None` when it is blank.
fn optional_text(text: &str) -> (r: Option<String>)
    ensures
        optional_trimmed(r, text@),
{
    let t = trimmed(text);
    if t.unicode_len() == 0 {
        None
    } else {
        Some(t)
    }
}

/// Whether `p` is the saved connection the filled-in form describes: name,
/// host and user as typed; the port as typed, or 22 when it does not parse;
/// the trimmed group (none when blank); the authentication methods of the
/// key file and agent fields; and either a jump host (trimmed, none when
/// blank) over a direct connection, or the form's proxy and no jump host.
pub open spec fn is_form_profile(p: SessionProfile, f: ConnectionForm) -> bool {
    let q = p.params;
    &&& p.name@ == f.name@
    &&& optional_trimmed(p.group, f.group@)
    &&& q.host@ == f.host@
    &&& q.port == match spec_parse_u16(f.port@) {
        Some(n) => n,
        None => 22u16,
    }
    &&& q.user@ == f.user@
    &&& auth_methods_match(q.auth@, f.key_path@, f.use_agent)
    &&& q.vault_id is None
    &&& q.forward_agent == f.forward_agent
    &&& if f.proxy_type@ == "jump"@ {
        q.proxy == ProxyConfig::Direct && optional_trimmed(q.proxy_jump, f.proxy_jump@)
    } else {
        proxy_matches_inputs(q.proxy, f.proxy_type@, f.proxy_host@, f.proxy_port@, f.proxy_username@) && q.proxy_jump is None
    }
}

/// The tab the connection dialog shows.
#[derive(Clone, Copy, Debug, PartialEq, Eq, Structural)]
pub enum DialogTab {
    Session,
    Proxy,
}

/// Whether the connection dialog is open, and on which tab.
#[derive(Clone, Copy, Debug, PartialEq, Eq, Structural)]
pub struct DialogView {
    pub open: bool,
    pub tab: DialogTab,
}

impl ConnectionForm {
    /// Pressing Save in the open dialog on `tab`: with a blank name, host or
    /// user nothing is saved and the dialog stays open on its session tab;
    /// otherwise the form's connection is saved and the dialog closes.
    pub fn save_connection(&self, tab: DialogTab) -> (r: (Option<SessionProfile>, DialogView))
        ensures
            (self.name@.len() == 0 || self.host@.len() == 0 || self.user@.len() == 0) ==> r.0 is None && r.1 == (
            DialogView { open: true, tab: DialogTab::Session }),
            (self.name@.len() > 0 && self.host@.len() > 0 && self.user@.len() > 0) ==> (r.0 matches Some(p)
                && is_form_profile(p, *self)) && r.1 == (DialogView { open: false, tab }),
    {
        match self.to_profile() {
            Some(p) => (Some(p), DialogView { open: false, tab }),
            None => (None, DialogView { open: true, tab: DialogTab::Session }),
        }
    }

    /// The saved connection the form describes, or `None` when the name,
    /// the host or the user is empty.
    pub fn to_profile(&self) -> (r: Option<SessionProfile>)
        ensures
            (self.name@.len() == 0 || self.host@.len() == 0 || self.user@.len() == 0) ==> r is None,
            (self.name@.len() > 0 && self.host@.len() > 0 && self.user@.len() > 0) ==> (r matches Some(p) && is_form_profile(
                p,
                *self,
            )),
    {
        if self.name.unicode_len() == 0 || self.host.unicode_len() == 0 || self.user.unicode_len() == 0 {
            return None;
        }
        let port: u16 = match parse_u16(self.port.as_str()) {
            Some(n) => n,
            None => 22,
        };
        let auth = auth_methods_from_inputs(self.key_path.as_str(), self.use_agent);
        let (proxy, proxy_jump) = if str_eq(self.proxy_type.as_str(), "jump") {
            (ProxyConfig::Direct, optional_text(self.proxy_jump.as_str()))
        } else {
            (
                proxy_from_inputs(
                    self.proxy_type.as_str(),
                    self.proxy_host.as_str(),
                    self.proxy_port.as_str(),
                    self.proxy_username.as_str(),
                ),
                None,
            )
        };
        Some(SessionProfile {
            name: self.name.clone(),
            group: optional_text(self.group.as_str()),
            params: ConnectParams {
                host: self.host.clone(),
                port,
                user: self.user.clone(),
                auth,
                vault_id: None,
                proxy_jump,
                proxy,
                forward_agent: self.forward_agent,
            },
        })
    }
}

/// The text of an optional string, if any.
pub open spec fn opt_view(o: Option<String>) -> Option<Seq<char>> {
    match o {
        Some(s) => Some(s@),
        None => None,
    }
}

/// What an authentication method reads as: its kind and key file.
pub open spec fn auth_method_view(m: AuthMethod) -> (u8, Seq<char>) {
    match m {
        AuthMethod::Password => (0u8, Seq::empty()),
        AuthMethod::PublicKey { key_path } => (1u8, key_path@),
        AuthMethod::KeyboardInteractive => (2u8, Seq::empty()),
        AuthMethod::Agent => (3u8, Seq::empty()),
    }
}

/// What a proxy setting reads as: its kind, host, port and user name.
pub open spec fn proxy_view(p: ProxyConfig) -> (u8, Seq<char>, u16, Option<Seq<char>>) {
    match p {
        ProxyConfig::Direct => (0u8, Seq::empty(), 0u16, None),
        ProxyConfig::System => (1u8, Seq::empty(), 0u16, None),
        ProxyConfig::Socks5 { host, port, username } => (2u8, host@, port, opt_view(username)),
        ProxyConfig::Http { host, port, username } => (3u8, host@, port, opt_view(username)),
    }
}

/// What a saved connection reads as, field by field.
pub open spec fn profile_view(p: SessionProfile) -> (
    (Seq<char>, Option<Seq<char>>),
    (Seq<char>, u16, Seq<char>),
    Seq<(u8, Seq<char>)>,
    (Option<Seq<char>>, Option<Seq<char>>, (u8, Seq<char>, u16, Option<Seq<char>>), bool),
) {
    (
        (p.name@, opt_view(p.group)),
        (p.params.host@, p.params.port, p.params.user@),
        p.params.auth@.map_values(|m: AuthMethod| auth_method_view(m)),
        (opt_view(p.params.vault_id), opt_view(p.params.proxy_jump), proxy_view(p.params.proxy), p.params.forward_agent),
    )
}

/// Whether a saved connection is in the form the dialog saves: name, host
/// and user given; a trimmed, non-blank group if any; no custom vault id;
/// the methods the key file and agent fields produce; a proxy as the form
/// builds it; and a trimmed, non-blank jump host only over a direct
/// connection.
pub open spec fn is_clean_profile(p: SessionProfile) -> bool {
    let q = p.params;
    &&& p.name@.len() > 0 && q.host@.len() > 0 && q.user@.len() > 0
    &&& match p.group {
        Some(g) => is_clean_text(g@),
        None => true,
    }
    &&& q.vault_id is None
    &&& auth_methods_match(q.auth@, first_key_path(q.auth@), q.auth@.contains(AuthMethod::Agent))
    &&& is_clean_proxy(q.proxy)
    &&& match q.proxy_jump {
        Some(j) => q.proxy == ProxyConfig::Direct && is_clean_text(j@),
        None => true,
    }
}

/// Two method lists produced by the same key file and agent fields read the same.
proof fn lemma_auth_methods_unique(a: Seq<AuthMethod>, b: Seq<AuthMethod>, key_path: Seq<char>, use_agent: bool)
    requires
        auth_methods_match(a, key_path, use_agent),
        auth_methods_match(b, key_path, use_agent),
    ensures
        a.map_values(|m: AuthMethod| auth_method_view(m)) == b.map_values(|m: AuthMethod| auth_method_view(m)),
{
    assert(a.map_values(|m: AuthMethod| auth_method_view(m)) =~= b.map_values(|m: AuthMethod| auth_method_view(m)));
}

/// Two proxies that match the same form fields read the same.
proof fn lemma_proxy_unique(a: ProxyConfig, b: ProxyConfig, kind: Seq<char>, host: Seq<char>, port: Seq<char>, username: Seq<char>)
    requires
        proxy_matches_inputs(a, kind, host, port, username),
        proxy_matches_inputs(b, kind, host, port, username),
    ensures
        proxy_view(a) == proxy_view(b),
{
}

/// Opening a saved connection for editing and saving the form unchanged
/// keeps the connection as it was, for every connection in the form the
/// dialog saves.
pub proof fn law_unchanged_edit_keeps_the_connection(profile: SessionProfile, form: ConnectionForm, saved: SessionProfile)
    requires
        is_clean_profile(profile),
        is_edit_form(form, profile),
        is_form_profile(saved, form),
    ensures
        profile_view(saved) == profile_view(profile),
{
    let p = profile.params;
    let q = saved.params;
    reveal_strlit("jump");
    reveal_strlit("direct");
    reveal_strlit("system");
    reveal_strlit("socks5");
    reveal_strlit("http");
    assert(trim_ws(Seq::<char>::empty()) =~= Seq::<char>::empty());
    assert("jump"@[0] != "http"@[0]);
    assert("jump"@ != "direct"@ && "jump"@ != "system"@ && "jump"@ != "socks5"@ && "jump"@ != "http"@);
    assert("direct"@[0] != "system"@[0] && "direct"@[0] != "socks5"@[0] && "system"@[1] != "socks5"@[1]);
    assert("direct"@ != "system"@ && "direct"@ != "socks5"@ && "system"@ != "socks5"@);
    lemma_port_text_round_trip(p.port);
    lemma_auth_methods_unique(q.auth@, p.auth@, first_key_path(p.auth@), p.auth@.contains(AuthMethod::Agent));
    match profile.group {
        Some(g) => {},
        None => {},
    }
    match p.proxy {
        ProxyConfig::Direct => {
            match p.proxy_jump {
                Some(j) => {},
                None => {
                    assert(proxy_matches_inputs(p.proxy, "direct"@, Seq::empty(), Seq::empty(), Seq::empty()));
                    lemma_proxy_unique(q.proxy, p.proxy, "direct"@, Seq::empty(), Seq::empty(), Seq::empty());
                },
            }
        },
        _ => {
            law_proxy_fields_round_trip(p.proxy);
            let fields = spec_proxy_fields(p.proxy);
            lemma_proxy_unique(q.proxy, p.proxy, spec_proxy_kind(p.proxy), fields.0, fields.1, fields.2);
        },
    }
}

} // verus!
