//! How the file tree presents remote entries: size, mode string, owner, the
//! action a double click takes, and the icon.

use vstd::prelude::*;
use crate::metrics_format::{format_bytes, spec_format_bytes};
use crate::session_data::{SessionId, SftpEntry};
use crate::text::{decimal, push_char, push_decimal};
use crate::i18n::SftpText;
use crate::sftp_path::{join_path, spec_join_path};

verus! {

/// An entry together with the directory and session it was listed in.
#[derive(Clone, Debug, PartialEq, Eq)]
pub struct SftpEntryContext {
    pub session_id: SessionId,
    pub base_path: String,
    pub entry: SftpEntry,
}

/// What a double click on an entry does.
#[derive(Clone, Copy, Debug, PartialEq, Eq, Structural)]
pub enum SftpEntryOpenAction {
    OpenDirectory,
    ExternalEdit,
}

/// Directories open, files go to the external editor.
pub fn sftp_entry_open_action(entry: &SftpEntry) -> (r: SftpEntryOpenAction)
    ensures
        r == (if entry.is_dir { SftpEntryOpenAction::OpenDirectory } else { SftpEntryOpenAction::ExternalEdit }),
{
    if entry.is_dir {
        SftpEntryOpenAction::OpenDirectory
    } else {
        SftpEntryOpenAction::ExternalEdit
    }
}

/// The size column: empty for directories, compact units for files.
pub fn format_sftp_size(size: u64, is_dir: bool) -> (r: String)
    ensures
        r@ == (if is_dir { Seq::empty() } else { spec_format_bytes(size as nat) }),
{
    if is_dir {
        String::new()
    } else {
        format_bytes(size)
    }
}

/// `on` when the bit is set in the mode, else `-`.
pub open spec fn mode_flag(permissions: u32, bit: u32, on: char) -> char {
    if permissions & bit != 0 { on } else { '-' }
}

/// The `ls -l` style mode string: file type (`d`, `l` or `-`) and the nine
/// permission flags.
pub open spec fn spec_mode_string(p: u32, is_dir: bool) -> Seq<char> {
    let kind = if is_dir { 'd' } else if p & 0o120000 == 0o120000 { 'l' } else { '-' };
    seq![
        kind,
        mode_flag(p, 0o400, 'r'),
        mode_flag(p, 0o200, 'w'),
        mode_flag(p, 0o100, 'x'),
        mode_flag(p, 0o040, 'r'),
        mode_flag(p, 0o020, 'w'),
        mode_flag(p, 0o010, 'x'),
        mode_flag(p, 0o004, 'r'),
        mode_flag(p, 0o002, 'w'),
        mode_flag(p, 0o001, 'x'),
    ]
}

proof fn lemma_permission_bits(p: u32)
    ensures
        (p & 0o400 != 0) == ((p >> 8u32) & 1u32 == 1u32),
        (p & 0o200 != 0) == ((p >> 7u32) & 1u32 == 1u32),
        (p & 0o100 != 0) == ((p >> 6u32) & 1u32 == 1u32),
        (p & 0o040 != 0) == ((p >> 5u32) & 1u32 == 1u32),
        (p & 0o020 != 0) == ((p >> 4u32) & 1u32 == 1u32),
        (p & 0o010 != 0) == ((p >> 3u32) & 1u32 == 1u32),
        (p & 0o004 != 0) == ((p >> 2u32) & 1u32 == 1u32),
        (p & 0o002 != 0) == ((p >> 1u32) & 1u32 == 1u32),
        (p & 0o001 != 0) == ((p >> 0u32) & 1u32 == 1u32),
{
    assert((p & 0o400 != 0) == ((p >> 8u32) & 1u32 == 1u32)) by (bit_vector);
    assert((p & 0o200 != 0) == ((p >> 7u32) & 1u32 == 1u32)) by (bit_vector);
    assert((p & 0o100 != 0) == ((p >> 6u32) & 1u32 == 1u32)) by (bit_vector);
    assert((p & 0o040 != 0) == ((p >> 5u32) & 1u32 == 1u32)) by (bit_vector);
    assert((p & 0o020 != 0) == ((p >> 4u32) & 1u32 == 1u32)) by (bit_vector);
    assert((p & 0o010 != 0) == ((p >> 3u32) & 1u32 == 1u32)) by (bit_vector);
    assert((p & 0o004 != 0) == ((p >> 2u32) & 1u32 == 1u32)) by (bit_vector);
    assert((p & 0o002 != 0) == ((p >> 1u32) & 1u32 == 1u32)) by (bit_vector);
    assert((p & 0o001 != 0) == ((p >> 0u32) & 1u32 == 1u32)) by (bit_vector);
}

/// The mode string is read position by position in the `ls` bit order: after
/// the type character, flag `k` (for `k` from 0 to 8) shows `r`, `w` or `x`
/// (by `k` modulo 3) exactly when bit `8 - k` of the mode is set (owner
/// read at bit 8 down to others' execute at bit 0), and `-` otherwise.
pub proof fn law_mode_string_follows_ls_bit_order(p: u32, is_dir: bool, k: int)
    requires
        0 <= k < 9,
    ensures
        spec_mode_string(p, is_dir).len() == 10,
        spec_mode_string(p, is_dir)[k + 1] == if (p >> ((8 - k) as u32)) & 1u32 == 1u32 {
            seq!['r', 'w', 'x'][k % 3]
        } else {
            '-'
        },
        is_dir ==> spec_mode_string(p, is_dir)[0] == 'd',
{
    lemma_permission_bits(p);
    let s = spec_mode_string(p, is_dir);
    if k == 0 {
        assert(s[1] == mode_flag(p, 0o400, 'r'));
    } else if k == 1 {
        assert(s[2] == mode_flag(p, 0o200, 'w'));
    } else if k == 2 {
        assert(s[3] == mode_flag(p, 0o100, 'x'));
    } else if k == 3 {
        assert(s[4] == mode_flag(p, 0o040, 'r'));
    } else if k == 4 {
        assert(s[5] == mode_flag(p, 0o020, 'w'));
    } else if k == 5 {
        assert(s[6] == mode_flag(p, 0o010, 'x'));
    } else if k == 6 {
        assert(s[7] == mode_flag(p, 0o004, 'r'));
    } else if k == 7 {
        assert(s[8] == mode_flag(p, 0o002, 'w'));
    } else {
        assert(s[9] == mode_flag(p, 0o001, 'x'));
    }
}

fn flag(p: u32, bit: u32, on: char) -> (r: char)
    ensures
        r == mode_flag(p, bit, on),
{
    if p & bit != 0 { on } else { '-' }
}

/// The mode column: empty when the server sent no mode.
pub fn format_sftp_permissions(permissions: Option<u32>, is_dir: bool) -> (r: String)
    ensures
        r@ == match permissions {
            Some(p) => spec_mode_string(p, is_dir),
            None => Seq::empty(),
        },
{
    let p = match permissions {
        Some(p) => p,
        None => return String::new(),
    };
    let kind = if is_dir {
        'd'
    } else if p & 0o120000 == 0o120000 {
        'l'
    } else {
        '-'
    };
    let mut out = String::new();
    push_char(&mut out, kind);
    push_char(&mut out, flag(p, 0o400, 'r'));
    push_char(&mut out, flag(p, 0o200, 'w'));
    push_char(&mut out, flag(p, 0o100, 'x'));
    push_char(&mut out, flag(p, 0o040, 'r'));
    push_char(&mut out, flag(p, 0o020, 'w'));
    push_char(&mut out, flag(p, 0o010, 'x'));
    push_char(&mut out, flag(p, 0o004, 'r'));
    push_char(&mut out, flag(p, 0o002, 'w'));
    push_char(&mut out, flag(p, 0o001, 'x'));
    assert(out@ =~= spec_mode_string(p, is_dir));
    out
}

/// A name, else the numeric id, else `-`.
pub open spec fn owner_part(name: Option<String>, id: Option<u32>) -> Seq<char> {
    match name {
        Some(n) => n@,
        None => match id {
            Some(i) => decimal(i as nat),
            None => "-"@,
        },
    }
}

fn push_owner_part(out: &mut String, name: &Option<String>, id: Option<u32>)
    ensures
        final(out)@ == old(out)@ + owner_part(*name, id),
{
    match name {
        Some(n) => out.append(n.as_str()),
        None => match id {
            Some(i) => push_decimal(out, i as u128),
            None => out.append("-"),
        },
    }
}

/// The owner column, `user/group`, preferring names over numeric ids.
pub fn format_sftp_owner(entry: &SftpEntry) -> (r: String)
    ensures
        r@ == owner_part(entry.user, entry.uid) + "/"@ + owner_part(entry.group, entry.gid),
{
    let mut out = String::new();
    push_owner_part(&mut out, &entry.user, entry.uid);
    out.append("/");
    push_owner_part(&mut out, &entry.group, entry.gid);
    out
}

/// The icon of an entry.
pub fn entry_icon(entry: &SftpEntry) -> (r: &'static str)
    ensures
        r@ == (if entry.is_dir { "folder"@ } else { "file"@ }),
{
    if entry.is_dir {
        "folder"
    } else {
        "file"
    }
}

/// The phone list subtitle of an entry: its size, nothing for directories.
pub fn phone_entry_detail(entry: &SftpEntry) -> (r: String)
    ensures
        r@ == (if entry.is_dir { Seq::empty() } else { spec_format_bytes(entry.size as nat) }),
{
    format_sftp_size(entry.size, entry.is_dir)
}

/// Why the terminal could not be moved to the SFTP folder.
#[derive(Clone, Copy, Debug, PartialEq, Eq, Structural)]
pub enum TerminalCdBlocked {
    /// The session or its terminal is gone.
    Unavailable,
    /// A full-screen program (an editor, a pager) owns the terminal.
    AltScreen,
    /// The command could not be sent.
    SendFailed,
}

/// The message shown when the terminal could not follow the SFTP folder.
pub fn terminal_cd_blocked_text(error: TerminalCdBlocked, t: &SftpText) -> (r: &'static str)
    ensures
        r == match error {
            TerminalCdBlocked::Unavailable => t.session_missing,
            TerminalCdBlocked::AltScreen => t.sync_blocked_alt_screen,
            TerminalCdBlocked::SendFailed => t.sync_send_failed,
        },
{
    match error {
        TerminalCdBlocked::Unavailable => t.session_missing,
        TerminalCdBlocked::AltScreen => t.sync_blocked_alt_screen,
        TerminalCdBlocked::SendFailed => t.sync_send_failed,
    }
}

/// The folder opening an entry browses to: the entry's own path for a
/// folder; nothing for a file.
pub fn directory_to_open(ctx: &SftpEntryContext) -> (r: Option<String>)
    ensures
        ctx.entry.is_dir ==> (r matches Some(path) && path@ == spec_join_path(ctx.base_path@, ctx.entry.name@)),
        !ctx.entry.is_dir ==> r is None,
{
    if ctx.entry.is_dir {
        Some(join_path(ctx.base_path.as_str(), ctx.entry.name.as_str()))
    } else {
        None
    }
}

} // verus!
