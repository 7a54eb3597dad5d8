//! The settings panel: its sections per platform, and the pairing code as
//! it is shown for copying by hand.

use vstd::prelude::*;
use crate::i18n::AppText;
use crate::text::{chars_of, push_char};

verus! {

/// A request from the sync section of the settings.
#[derive(Clone, PartialEq, Eq)]
pub enum SyncAction {
    WebDavUpload { url: String, username: String, password: String },
    WebDavDownload { url: String, username: String, password: String },
    StartLanShare,
    StopLanShare,
    ImportLanShare { url: String, pairing_code: String },
    /// Scan a pairing QR code with the camera.
    ScanPairingCode,
    CopyText(String),
}

/// A running LAN share, shown as a QR code and a pairing code.
#[derive(Clone, PartialEq, Eq)]
pub struct ActiveShare {
    pub url: String,
    pub pairing_code: String,
    /// What the QR code carries: the address and the pairing code.
    pub payload: String,
}

/// A section of the settings panel.
#[derive(Clone, Copy, Debug, PartialEq, Eq, Structural)]
pub enum SettingsSection {
    General,
    Terminal,
    Editor,
    Sync,
}

impl SettingsSection {
    /// The navigation label of the section.
    pub fn label(self, t: &AppText) -> (r: &'static str)
        ensures
            r == match self {
                SettingsSection::General => t.settings_nav_general,
                SettingsSection::Terminal => t.settings_nav_terminal,
                SettingsSection::Editor => t.settings_nav_editor,
                SettingsSection::Sync => t.settings_nav_sync,
            },
    {
        match self {
            SettingsSection::General => t.settings_nav_general,
            SettingsSection::Terminal => t.settings_nav_terminal,
            SettingsSection::Editor => t.settings_nav_editor,
            SettingsSection::Sync => t.settings_nav_sync,
        }
    }

    /// The icon of the section.
    pub fn icon(self) -> (r: &'static str)
        ensures
            r@ == match self {
                SettingsSection::General => "settings"@,
                SettingsSection::Terminal => "terminal"@,
                SettingsSection::Editor => "edit"@,
                SettingsSection::Sync => "sync"@,
            },
    {
        match self {
            SettingsSection::General => "settings",
            SettingsSection::Terminal => "terminal",
            SettingsSection::Editor => "edit",
            SettingsSection::Sync => "sync",
        }
    }
}

/// The sections shown: all four on desktops; phones, which have no context
/// menu to open files with a custom editor, leave out the editor section.
pub open spec fn spec_visible_sections(is_phone: bool) -> Seq<SettingsSection> {
    if is_phone {
        seq![SettingsSection::General, SettingsSection::Terminal, SettingsSection::Sync]
    } else {
        seq![SettingsSection::General, SettingsSection::Terminal, SettingsSection::Editor, SettingsSection::Sync]
    }
}

/// The sections of the settings panel on this kind of device, in order.
pub fn visible_sections(is_phone: bool) -> (r: Vec<SettingsSection>)
    ensures
        r@ == spec_visible_sections(is_phone),
{
    if is_phone {
        vec![SettingsSection::General, SettingsSection::Terminal, SettingsSection::Sync]
    } else {
        vec![SettingsSection::General, SettingsSection::Terminal, SettingsSection::Editor, SettingsSection::Sync]
    }
}

/// Every platform keeps the general, terminal and sync sections, and only
/// phones lose the editor section.
pub proof fn law_sections_per_platform(is_phone: bool)
    ensures
        spec_visible_sections(is_phone).contains(SettingsSection::General),
        spec_visible_sections(is_phone).contains(SettingsSection::Terminal),
        spec_visible_sections(is_phone).contains(SettingsSection::Sync),
        spec_visible_sections(is_phone).contains(SettingsSection::Editor) == !is_phone,
{
    let s = spec_visible_sections(is_phone);
    assert(s[0] == SettingsSection::General);
    assert(s[1] == SettingsSection::Terminal);
    assert(s[s.len() - 1] == SettingsSection::Sync);
    if !is_phone {
        assert(s[2] == SettingsSection::Editor);
    } else {
        assert(!s.contains(SettingsSection::Editor));
    }
}

/// A code split into groups of four characters, joined by single spaces;
/// the last group may be shorter.
pub open spec fn grouped_by_four(code: Seq<char>) -> Seq<char>
    decreases code.len(),
{
    if code.len() <= 4 {
        code
    } else {
        code.take(4) + " "@ + grouped_by_four(code.skip(4))
    }
}

/// The first `n` characters of a code, with a space before every fourth
/// one after the start.
pub open spec fn spaced_prefix(code: Seq<char>, n: nat) -> Seq<char>
    decreases n,
{
    if n == 0 {
        Seq::empty()
    } else {
        let i = (n - 1) as nat;
        spaced_prefix(code, i) + (if i > 0 && i % 4 == 0 { " "@ } else { Seq::empty() }) + seq![code[i as int]]
    }
}

proof fn lemma_spaced_prefix_short(code: Seq<char>, n: nat)
    requires
        n <= 4,
        n <= code.len(),
    ensures
        spaced_prefix(code, n) == code.take(n as int),
    decreases n,
{
    if n > 0 {
        lemma_spaced_prefix_short(code, (n - 1) as nat);
        assert(code.take(n as int) =~= code.take(n - 1).push(code[n - 1]));
    }
}

proof fn lemma_spaced_prefix_shift(code: Seq<char>, n: nat)
    requires
        4 < n <= code.len(),
    ensures
        spaced_prefix(code, n) == code.take(4) + " "@ + spaced_prefix(code.skip(4), (n - 4) as nat),
    decreases n,
{
    let rest = code.skip(4);
    if n == 5 {
        lemma_spaced_prefix_short(code, 4);
        assert(spaced_prefix(rest, 0) =~= Seq::<char>::empty());
        assert(rest[0] == code[4]);
        assert(spaced_prefix(rest, 1) =~= seq![code[4]]);
        assert(spaced_prefix(code, 5) =~= code.take(4) + " "@ + seq![code[4]]);
    } else {
        lemma_spaced_prefix_shift(code, (n - 1) as nat);
        let i = (n - 1) as nat;
        assert(rest[i - 4] == code[i as int]);
        assert((i > 0 && i % 4 == 0) == (i - 4 > 0 && (i - 4) % 4 == 0));
        assert(spaced_prefix(code, n) =~= code.take(4) + " "@ + spaced_prefix(rest, (n - 4) as nat));
    }
}

proof fn lemma_spaced_prefix_grouped(code: Seq<char>)
    ensures
        spaced_prefix(code, code.len()) == grouped_by_four(code),
    decreases code.len(),
{
    if code.len() <= 4 {
        lemma_spaced_prefix_short(code, code.len());
        assert(code.take(code.len() as int) =~= code);
    } else {
        lemma_spaced_prefix_shift(code, code.len());
        lemma_spaced_prefix_grouped(code.skip(4));
    }
}

/// The pairing code in groups of four characters separated by spaces, for
/// copying by hand; a shorter last group gets no padding.
pub fn group_pairing_code(code: &str) -> (r: String)
    ensures
        r@ == grouped_by_four(code@),
{
    let v = chars_of(code);
    let mut out = String::new();
    let mut i: usize = 0;
    while i < v.len()
        invariant
            i <= v@.len(),
            v@ == code@,
            out@ == spaced_prefix(v@, i as nat),
        decreases v@.len() - i,
    {
        proof {
            reveal_strlit(" ");
        }
        if i > 0 && i % 4 == 0 {
            push_char(&mut out, ' ');
        }
        push_char(&mut out, v[i]);
        assert(out@ =~= spaced_prefix(v@, (i + 1) as nat));
        i = i + 1;
    }
    proof {
        lemma_spaced_prefix_grouped(v@);
    }
    out
}

/// The code without the separating spaces.
pub open spec fn without_spaces(s: Seq<char>) -> Seq<char> {
    s.filter(|c: char| c != ' ')
}

/// Grouping only adds spaces: for a code without spaces, removing them
/// gives the code back, so copying a grouped code by hand loses nothing.
pub proof fn law_grouping_keeps_the_code(code: Seq<char>)
    requires
        !code.contains(' '),
    ensures
        without_spaces(grouped_by_four(code)) == code,
    decreases code.len(),
{
    lemma_no_spaces_kept(code);
    if code.len() > 4 {
        let head = code.take(4);
        let rest = code.skip(4);
        assert(!rest.contains(' ')) by {
            if rest.contains(' ') {
                let i = choose|i: int| 0 <= i < rest.len() && rest[i] == ' ';
                assert(code[i + 4] == ' ');
            }
        }
        law_grouping_keeps_the_code(rest);
        assert(!head.contains(' ')) by {
            if head.contains(' ') {
                let i = choose|i: int| 0 <= i < head.len() && head[i] == ' ';
                assert(code[i] == ' ');
            }
        }
        lemma_no_spaces_kept(head);
        let sep = " "@;
        reveal_strlit(" ");
        Seq::filter_distributes_over_add(head + sep, grouped_by_four(rest), |c: char| c != ' ');
        Seq::filter_distributes_over_add(head, sep, |c: char| c != ' ');
        reveal(Seq::filter);
        assert(sep.len() == 1 && sep[0] == ' ');
        assert(sep.drop_last() =~= Seq::<char>::empty());
        assert(without_spaces(sep.drop_last()) =~= Seq::<char>::empty());
        assert(without_spaces(sep) =~= Seq::<char>::empty());
        assert(code =~= head + rest);
    }
}

/// A sequence without spaces is left as it is by removing spaces.
proof fn lemma_no_spaces_kept(s: Seq<char>)
    requires
        !s.contains(' '),
    ensures
        without_spaces(s) == s,
    decreases s.len(),
{
    reveal(Seq::filter);
    if s.len() > 0 {
        assert(!s.drop_last().contains(' ')) by {
            if s.drop_last().contains(' ') {
                let i = choose|i: int| 0 <= i < s.drop_last().len() && s.drop_last()[i] == ' ';
                assert(s[i] == ' ');
            }
        }
        lemma_no_spaces_kept(s.drop_last());
        assert(s.last() != ' ');
        assert(s.drop_last().push(s.last()) =~= s);
    }
}

/// The entity tag to require when uploading the configuration to a WebDAV
/// endpoint: the remembered revision when it was remembered for this very
/// endpoint (replace the remote copy only if it is still that revision),
/// else none (create the remote copy only if it does not exist).
pub fn upload_precondition(remembered: &Option<(String, String)>, endpoint: &str) -> (r: Option<String>)
    ensures
        match remembered {
            Some(pair) => if pair.0@ == endpoint@ {
                r == Some(pair.1)
            } else {
                r is None
            },
            None => r is None,
        },
{
    match remembered {
        Some(pair) => {
            if crate::text::str_eq(pair.0.as_str(), endpoint) {
                Some(pair.1.clone())
            } else {
                None
            }
        },
        None => None,
    }
}

/// What is remembered after an upload to `endpoint`: the revision the
/// server reported, with the endpoint it belongs to, or nothing when the
/// server reported none.
pub fn remembered_after_upload(endpoint: String, revision: Option<String>) -> (r: Option<(String, String)>)
    ensures
        match revision {
            Some(tag) => r == Some((endpoint, tag)),
            None => r is None,
        },
{
    match revision {
        Some(tag) => Some((endpoint, tag)),
        None => None,
    }
}

} // verus!
