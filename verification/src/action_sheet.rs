//! The phone's bottom action sheet: which actions each sheet offers, and
//! what choosing an action does.

use vstd::prelude::*;
use crate::app_logic::{SessionTabView, DEFAULT_GROUP_NAME};
use crate::config::SessionProfile;
use crate::i18n::Texts;
use crate::session_data::SessionId;
use crate::sftp_path::{join_path, spec_join_path};
use crate::sidebar::SftpEntryContext;
use crate::terminal::{terminal_pane_id, terminal_screen_id};
use crate::text::{decimal, owned, push_decimal, str_eq};

verus! {

/// The sheet that is open.
#[derive(Clone, Debug, PartialEq)]
pub enum PhoneSheet {
    /// Actions of a saved server.
    Profile(SessionProfile),
    /// Actions of a server group.
    Group(String),
    /// Actions of a remote file or directory.
    SftpEntry(SftpEntryContext),
    /// Actions of the terminal view.
    Terminal(SessionId),
    /// The session switcher.
    Sessions,
}

/// What an action does.
#[derive(Clone, Copy, Debug, PartialEq, Eq, Structural)]
pub enum SheetActionId {
    Connect,
    Edit,
    Duplicate,
    Delete,
    GroupRename,
    GroupDelete,
    Open,
    InlineEdit,
    Rename,
    CopyPath,
    CopyName,
    Copy,
    Paste,
    SelectAll,
    SyncToTerminal,
    Reconnect,
    Disconnect,
    NewConnection,
    SelectSession(SessionId),
}

/// One row of an action sheet.
#[derive(Clone, Debug, PartialEq)]
pub struct SheetAction {
    pub id: SheetActionId,
    pub icon: &'static str,
    pub label: String,
    /// Destructive: shown in red.
    pub danger: bool,
    /// Not available in the current state.
    pub disabled: bool,
}

/// The content of an action row: id, icon, label, danger, disabled.
pub type ActionRow = (SheetActionId, Seq<char>, Seq<char>, bool, bool);

/// The content of an action.
pub open spec fn action_row(a: SheetAction) -> ActionRow {
    (a.id, a.icon@, a.label@, a.danger, a.disabled)
}

/// A plain row.
pub open spec fn row(id: SheetActionId, icon: Seq<char>, label: Seq<char>) -> ActionRow {
    (id, icon, label, false, false)
}

/// A destructive row.
pub open spec fn danger_row(id: SheetActionId, icon: Seq<char>, label: Seq<char>) -> ActionRow {
    (id, icon, label, true, false)
}

/// The title and rows of a sheet.
pub open spec fn spec_sheet_actions(sheet: PhoneSheet, sessions: Seq<SessionTabView>, connected: bool, t: Texts)
    -> (Seq<char>, Seq<ActionRow>)
{
    match sheet {
        PhoneSheet::Profile(p) => (
            p.name@,
            seq![
                row(SheetActionId::Connect, "connect"@, t.app.connect@),
                row(SheetActionId::Edit, "edit"@, t.app.edit@),
                row(SheetActionId::Duplicate, "file"@, t.app.copy@),
                danger_row(SheetActionId::Delete, "trash"@, t.app.delete@),
            ],
        ),
        PhoneSheet::Group(name) => (
            name@,
            if name@ != DEFAULT_GROUP_NAME@ {
                seq![
                    row(SheetActionId::GroupRename, "edit"@, t.app.rename_group@),
                    danger_row(SheetActionId::GroupDelete, "trash"@, t.app.delete_group@),
                ]
            } else {
                seq![row(SheetActionId::GroupRename, "edit"@, t.app.rename_group@)]
            },
        ),
        PhoneSheet::SftpEntry(ctx) => (
            ctx.entry.name@,
            seq![
                if ctx.entry.is_dir {
                    row(SheetActionId::Open, "folder"@, t.sftp.open@)
                } else {
                    row(SheetActionId::InlineEdit, "edit"@, t.sftp.edit_inline@)
                },
                row(SheetActionId::Rename, "edit"@, t.sftp.rename@),
                row(SheetActionId::CopyPath, "file"@, t.sftp.copy_path@),
                row(SheetActionId::CopyName, "file"@, t.sftp.copy_name@),
                danger_row(SheetActionId::Delete, "trash"@, t.sftp.delete@),
            ],
        ),
        PhoneSheet::Terminal(_) => (
            t.phone.tab_terminal@,
            seq![
                row(SheetActionId::Copy, "file"@, t.app.copy@),
                row(SheetActionId::Paste, "download"@, t.app.paste@),
                row(SheetActionId::SelectAll, "list"@, t.app.select_all@),
                (SheetActionId::SyncToTerminal, "split-vertical"@, t.sftp.sync_to_terminal@, false, !connected),
                (SheetActionId::Reconnect, "refresh"@, t.app.reconnect@, false, connected),
                danger_row(SheetActionId::Disconnect, "close"@, t.phone.disconnect@),
            ],
        ),
        PhoneSheet::Sessions => (
            t.phone.switch_session@,
            sessions.map_values(|s: SessionTabView| row(SheetActionId::SelectSession(s.id), "connect"@, s.title@))
                .push(row(SheetActionId::NewConnection, "add"@, t.app.new_connection@)),
        ),
    }
}

fn action(id: SheetActionId, icon: &'static str, label: &str, danger: bool, disabled: bool) -> (r: SheetAction)
    ensures
        action_row(r) == (id, icon@, label@, danger, disabled),
{
    SheetAction { id, icon, label: owned(label), danger, disabled }
}

/// The title and actions of a sheet. `sessions` is only used by the session
/// switcher; `connected` tells whether the current session is live.
pub fn phone_sheet_actions(sheet: &PhoneSheet, sessions: &[SessionTabView], connected: bool, t: &Texts)
    -> (r: (String, Vec<SheetAction>))
    ensures
        r.0@ == spec_sheet_actions(*sheet, sessions@, connected, *t).0,
        r.1@.map_values(|a: SheetAction| action_row(a)) == spec_sheet_actions(*sheet, sessions@, connected, *t).1,
{
    let ghost expected = spec_sheet_actions(*sheet, sessions@, connected, *t).1;
    let mut actions: Vec<SheetAction> = Vec::new();
    match sheet {
        PhoneSheet::Profile(profile) => {
            actions.push(action(SheetActionId::Connect, "connect", t.app.connect, false, false));
            actions.push(action(SheetActionId::Edit, "edit", t.app.edit, false, false));
            actions.push(action(SheetActionId::Duplicate, "file", t.app.copy, false, false));
            actions.push(action(SheetActionId::Delete, "trash", t.app.delete, true, false));
            assert(actions@.map_values(|a: SheetAction| action_row(a)) =~= expected);
            (profile.name.clone(), actions)
        },
        PhoneSheet::Group(name) => {
            actions.push(action(SheetActionId::GroupRename, "edit", t.app.rename_group, false, false));
            if !str_eq(name.as_str(), DEFAULT_GROUP_NAME) {
                actions.push(action(SheetActionId::GroupDelete, "trash", t.app.delete_group, true, false));
            }
            assert(actions@.map_values(|a: SheetAction| action_row(a)) =~= expected);
            (name.clone(), actions)
        },
        PhoneSheet::SftpEntry(ctx) => {
            if ctx.entry.is_dir {
                actions.push(action(SheetActionId::Open, "folder", t.sftp.open, false, false));
            } else {
                actions.push(action(SheetActionId::InlineEdit, "edit", t.sftp.edit_inline, false, false));
            }
            actions.push(action(SheetActionId::Rename, "edit", t.sftp.rename, false, false));
            actions.push(action(SheetActionId::CopyPath, "file", t.sftp.copy_path, false, false));
            actions.push(action(SheetActionId::CopyName, "file", t.sftp.copy_name, false, false));
            actions.push(action(SheetActionId::Delete, "trash", t.sftp.delete, true, false));
            assert(actions@.map_values(|a: SheetAction| action_row(a)) =~= expected);
            (ctx.entry.name.clone(), actions)
        },
        PhoneSheet::Terminal(_) => {
            actions.push(action(SheetActionId::Copy, "file", t.app.copy, false, false));
            actions.push(action(SheetActionId::Paste, "download", t.app.paste, false, false));
            actions.push(action(SheetActionId::SelectAll, "list", t.app.select_all, false, false));
            actions.push(action(SheetActionId::SyncToTerminal, "split-vertical", t.sftp.sync_to_terminal, false, !connected));
            actions.push(action(SheetActionId::Reconnect, "refresh", t.app.reconnect, false, connected));
            actions.push(action(SheetActionId::Disconnect, "close", t.phone.disconnect, true, false));
            assert(actions@.map_values(|a: SheetAction| action_row(a)) =~= expected);
            (owned(t.phone.tab_terminal), actions)
        },
        PhoneSheet::Sessions => {
            let mut i: usize = 0;
            while i < sessions.len()
                invariant
                    i <= sessions@.len(),
                    actions@.map_values(|a: SheetAction| action_row(a)) == sessions@.take(i as int).map_values(
                        |s: SessionTabView| row(SheetActionId::SelectSession(s.id), "connect"@, s.title@)),
                decreases sessions@.len() - i,
            {
                let s = &sessions[i];
                let ghost before = actions@;
                actions.push(action(SheetActionId::SelectSession(s.id), "connect", s.title.as_str(), false, false));
                assert(actions@.map_values(|a: SheetAction| action_row(a)) =~= before.map_values(|a: SheetAction| action_row(a)).push(
                    row(SheetActionId::SelectSession(s.id), "connect"@, s.title@)));
                assert(sessions@.take(i as int + 1).map_values(|s: SessionTabView| row(SheetActionId::SelectSession(s.id), "connect"@, s.title@))
                    =~= sessions@.take(i as int).map_values(|s: SessionTabView| row(SheetActionId::SelectSession(s.id), "connect"@, s.title@))
                        .push(row(SheetActionId::SelectSession(s.id), "connect"@, s.title@)));
                i = i + 1;
            }
            assert(sessions@.take(sessions@.len() as int) =~= sessions@);
            let ghost before = actions@;
            actions.push(action(SheetActionId::NewConnection, "add", t.app.new_connection, false, false));
            assert(actions@.map_values(|a: SheetAction| action_row(a)) =~= before.map_values(|a: SheetAction| action_row(a)).push(
                row(SheetActionId::NewConnection, "add"@, t.app.new_connection@)));
            (owned(t.phone.switch_session), actions)
        },
    }
}

/// The name `Debug` gives an action id.
pub open spec fn spec_action_key(id: SheetActionId) -> Seq<char> {
    match id {
        SheetActionId::Connect => "Connect"@,
        SheetActionId::Edit => "Edit"@,
        SheetActionId::Duplicate => "Duplicate"@,
        SheetActionId::Delete => "Delete"@,
        SheetActionId::GroupRename => "GroupRename"@,
        SheetActionId::GroupDelete => "GroupDelete"@,
        SheetActionId::Open => "Open"@,
        SheetActionId::InlineEdit => "InlineEdit"@,
        SheetActionId::Rename => "Rename"@,
        SheetActionId::CopyPath => "CopyPath"@,
        SheetActionId::CopyName => "CopyName"@,
        SheetActionId::Copy => "Copy"@,
        SheetActionId::Paste => "Paste"@,
        SheetActionId::SelectAll => "SelectAll"@,
        SheetActionId::SyncToTerminal => "SyncToTerminal"@,
        SheetActionId::Reconnect => "Reconnect"@,
        SheetActionId::Disconnect => "Disconnect"@,
        SheetActionId::NewConnection => "NewConnection"@,
        SheetActionId::SelectSession(s) => "SelectSession(SessionId("@ + decimal(s.0 as nat) + "))"@,
    }
}

impl SheetActionId {
    /// A stable key for the row, unique per action and per session.
    pub fn key(self) -> (r: String)
        ensures
            r@ == spec_action_key(self),
    {
        match self {
            SheetActionId::Connect => owned("Connect"),
            SheetActionId::Edit => owned("Edit"),
            SheetActionId::Duplicate => owned("Duplicate"),
            SheetActionId::Delete => owned("Delete"),
            SheetActionId::GroupRename => owned("GroupRename"),
            SheetActionId::GroupDelete => owned("GroupDelete"),
            SheetActionId::Open => owned("Open"),
            SheetActionId::InlineEdit => owned("InlineEdit"),
            SheetActionId::Rename => owned("Rename"),
            SheetActionId::CopyPath => owned("CopyPath"),
            SheetActionId::CopyName => owned("CopyName"),
            SheetActionId::Copy => owned("Copy"),
            SheetActionId::Paste => owned("Paste"),
            SheetActionId::SelectAll => owned("SelectAll"),
            SheetActionId::SyncToTerminal => owned("SyncToTerminal"),
            SheetActionId::Reconnect => owned("Reconnect"),
            SheetActionId::Disconnect => owned("Disconnect"),
            SheetActionId::NewConnection => owned("NewConnection"),
            SheetActionId::SelectSession(s) => {
                let mut r = owned("SelectSession(SessionId(");
                push_decimal(&mut r, s.0 as u128);
                r.append("))");
                r
            },
        }
    }
}

/// What choosing an action on a sheet asks the application to do. Profile
/// and entry effects act on the profile or entry of the sheet.
#[derive(Clone, Debug, PartialEq, Eq)]
pub enum SheetEffect {
    ConnectProfile,
    EditProfile,
    DuplicateProfile,
    DeleteProfile,
    /// Open the group dialog in rename mode, prefilled with `initial_name`.
    RenameGroup { original: String, initial_name: String },
    DeleteGroup(String),
    OpenEntry,
    InlineEditEntry,
    RenameEntry,
    CopyText(String),
    RemoveRemote { session_id: SessionId, path: String, is_dir: bool },
    CopyTerminalSelection { pane_id: String },
    PasteIntoTerminal(SessionId),
    SelectTerminalContents { screen_id: String },
    SyncTerminalToSftp(SessionId),
    ReconnectSession(SessionId),
    CloseSession(SessionId),
    /// Make the session active and show its terminal.
    SelectSession(SessionId),
    OpenNewConnection,
    /// The action does not belong to the sheet: nothing happens.
    Nothing,
}

/// The effect of choosing `action` on `sheet`.
pub open spec fn spec_sheet_effect_ok(action: SheetActionId, sheet: PhoneSheet, r: SheetEffect) -> bool {
    match (action, sheet) {
        (SheetActionId::Connect, PhoneSheet::Profile(_)) => r == SheetEffect::ConnectProfile,
        (SheetActionId::Edit, PhoneSheet::Profile(_)) => r == SheetEffect::EditProfile,
        (SheetActionId::Duplicate, PhoneSheet::Profile(_)) => r == SheetEffect::DuplicateProfile,
        (SheetActionId::Delete, PhoneSheet::Profile(_)) => r == SheetEffect::DeleteProfile,
        (SheetActionId::GroupRename, PhoneSheet::Group(name)) => r matches SheetEffect::RenameGroup { original, initial_name }
            && original@ == name@
            && initial_name@ == (if name@ == DEFAULT_GROUP_NAME@ { Seq::<char>::empty() } else { name@ }),
        (SheetActionId::GroupDelete, PhoneSheet::Group(name)) => if name@ != DEFAULT_GROUP_NAME@ {
            r matches SheetEffect::DeleteGroup(n) && n@ == name@
        } else {
            r == SheetEffect::Nothing
        },
        (SheetActionId::Open, PhoneSheet::SftpEntry(_)) => r == SheetEffect::OpenEntry,
        (SheetActionId::InlineEdit, PhoneSheet::SftpEntry(_)) => r == SheetEffect::InlineEditEntry,
        (SheetActionId::Rename, PhoneSheet::SftpEntry(_)) => r == SheetEffect::RenameEntry,
        (SheetActionId::CopyPath, PhoneSheet::SftpEntry(ctx)) => r matches SheetEffect::CopyText(text)
            && text@ == spec_join_path(ctx.base_path@, ctx.entry.name@),
        (SheetActionId::CopyName, PhoneSheet::SftpEntry(ctx)) => r matches SheetEffect::CopyText(text)
            && text@ == ctx.entry.name@,
        (SheetActionId::Delete, PhoneSheet::SftpEntry(ctx)) => r matches SheetEffect::RemoveRemote { session_id, path, is_dir }
            && session_id == ctx.session_id && path@ == spec_join_path(ctx.base_path@, ctx.entry.name@)
            && is_dir == ctx.entry.is_dir,
        (SheetActionId::Copy, PhoneSheet::Terminal(id)) => r matches SheetEffect::CopyTerminalSelection { pane_id }
            && pane_id@ == "terminal-"@ + decimal(id.0 as nat) + "-primary"@,
        (SheetActionId::Paste, PhoneSheet::Terminal(id)) => r == SheetEffect::PasteIntoTerminal(id),
        (SheetActionId::SelectAll, PhoneSheet::Terminal(id)) => r matches SheetEffect::SelectTerminalContents { screen_id }
            && screen_id@ == "terminal-"@ + decimal(id.0 as nat) + "-primary"@ + "-screen"@,
        (SheetActionId::SyncToTerminal, PhoneSheet::Terminal(id)) => r == SheetEffect::SyncTerminalToSftp(id),
        (SheetActionId::Reconnect, PhoneSheet::Terminal(id)) => r == SheetEffect::ReconnectSession(id),
        (SheetActionId::Disconnect, PhoneSheet::Terminal(id)) => r == SheetEffect::CloseSession(id),
        (SheetActionId::SelectSession(id), PhoneSheet::Sessions) => r == SheetEffect::SelectSession(id),
        (SheetActionId::NewConnection, PhoneSheet::Sessions) => r == SheetEffect::OpenNewConnection,
        _ => r == SheetEffect::Nothing,
    }
}

/// Decides what choosing an action on a sheet does. An action that does not
/// belong to the sheet does nothing rather than guessing.
pub fn sheet_action_effect(action: SheetActionId, sheet: &PhoneSheet) -> (r: SheetEffect)
    ensures
        spec_sheet_effect_ok(action, *sheet, r),
{
    match (action, sheet) {
        (SheetActionId::Connect, PhoneSheet::Profile(_)) => SheetEffect::ConnectProfile,
        (SheetActionId::Edit, PhoneSheet::Profile(_)) => SheetEffect::EditProfile,
        (SheetActionId::Duplicate, PhoneSheet::Profile(_)) => SheetEffect::DuplicateProfile,
        (SheetActionId::Delete, PhoneSheet::Profile(_)) => SheetEffect::DeleteProfile,
        (SheetActionId::GroupRename, PhoneSheet::Group(name)) => {
            let initial_name = if str_eq(name.as_str(), DEFAULT_GROUP_NAME) {
                String::new()
            } else {
                name.clone()
            };
            SheetEffect::RenameGroup { original: name.clone(), initial_name }
        },
        (SheetActionId::GroupDelete, PhoneSheet::Group(name)) => {
            if str_eq(name.as_str(), DEFAULT_GROUP_NAME) {
                SheetEffect::Nothing
            } else {
                SheetEffect::DeleteGroup(name.clone())
            }
        },
        (SheetActionId::Open, PhoneSheet::SftpEntry(_)) => SheetEffect::OpenEntry,
        (SheetActionId::InlineEdit, PhoneSheet::SftpEntry(_)) => SheetEffect::InlineEditEntry,
        (SheetActionId::Rename, PhoneSheet::SftpEntry(_)) => SheetEffect::RenameEntry,
        (SheetActionId::CopyPath, PhoneSheet::SftpEntry(ctx)) => {
            SheetEffect::CopyText(join_path(ctx.base_path.as_str(), ctx.entry.name.as_str()))
        },
        (SheetActionId::CopyName, PhoneSheet::SftpEntry(ctx)) => SheetEffect::CopyText(ctx.entry.name.clone()),
        (SheetActionId::Delete, PhoneSheet::SftpEntry(ctx)) => SheetEffect::RemoveRemote {
            session_id: ctx.session_id,
            path: join_path(ctx.base_path.as_str(), ctx.entry.name.as_str()),
            is_dir: ctx.entry.is_dir,
        },
        (SheetActionId::Copy, PhoneSheet::Terminal(id)) => {
            SheetEffect::CopyTerminalSelection { pane_id: terminal_pane_id(*id) }
        },
        (SheetActionId::Paste, PhoneSheet::Terminal(id)) => SheetEffect::PasteIntoTerminal(*id),
        (SheetActionId::SelectAll, PhoneSheet::Terminal(id)) => {
            let pane = terminal_pane_id(*id);
            SheetEffect::SelectTerminalContents { screen_id: terminal_screen_id(pane.as_str()) }
        },
        (SheetActionId::SyncToTerminal, PhoneSheet::Terminal(id)) => SheetEffect::SyncTerminalToSftp(*id),
        (SheetActionId::Reconnect, PhoneSheet::Terminal(id)) => SheetEffect::ReconnectSession(*id),
        (SheetActionId::Disconnect, PhoneSheet::Terminal(id)) => SheetEffect::CloseSession(*id),
        (SheetActionId::SelectSession(id), PhoneSheet::Sessions) => SheetEffect::SelectSession(id),
        (SheetActionId::NewConnection, PhoneSheet::Sessions) => SheetEffect::OpenNewConnection,
        _ => SheetEffect::Nothing,
    }
}

/// Every deletion a sheet offers is marked destructive.
pub proof fn law_deletion_is_marked_destructive(sheet: PhoneSheet, sessions: Seq<SessionTabView>, connected: bool, t: Texts, i: int)
    requires
        0 <= i < spec_sheet_actions(sheet, sessions, connected, t).1.len(),
        spec_sheet_actions(sheet, sessions, connected, t).1[i].0 == SheetActionId::Delete
            || spec_sheet_actions(sheet, sessions, connected, t).1[i].0 == SheetActionId::GroupDelete
            || spec_sheet_actions(sheet, sessions, connected, t).1[i].0 == SheetActionId::Disconnect,
    ensures
        spec_sheet_actions(sheet, sessions, connected, t).1[i].3,
{
    if sheet is Sessions {
        let rows = spec_sheet_actions(sheet, sessions, connected, t).1;
        if i < sessions.len() {
            assert(rows[i].0 is SelectSession);
        }
    }
}

/// The default group can be renamed but never deleted, neither from its
/// sheet nor by choosing a delete action on it.
pub proof fn law_default_group_is_never_deleted(name: String, sessions: Seq<SessionTabView>, connected: bool, t: Texts, r: SheetEffect)
    requires
        name@ == DEFAULT_GROUP_NAME@,
        spec_sheet_effect_ok(SheetActionId::GroupDelete, PhoneSheet::Group(name), r),
    ensures
        !spec_sheet_actions(PhoneSheet::Group(name), sessions, connected, t).1.contains(
            danger_row(SheetActionId::GroupDelete, "trash"@, t.app.delete_group@)),
        r == SheetEffect::Nothing,
{
    let rows = spec_sheet_actions(PhoneSheet::Group(name), sessions, connected, t).1;
    assert(rows.len() == 1);
    assert(rows[0].0 == SheetActionId::GroupRename);
}

/// Files are edited in the in-app editor and only directories are opened;
/// no sheet offers an external editor.
pub proof fn law_entry_sheet_offers_open_only_for_directories(ctx: SftpEntryContext, sessions: Seq<SessionTabView>, connected: bool, t: Texts)
    ensures
        ({
            let rows = spec_sheet_actions(PhoneSheet::SftpEntry(ctx), sessions, connected, t).1;
            &&& ctx.entry.is_dir ==> (exists|i: int| 0 <= i < rows.len() && rows[i].0 == SheetActionId::Open)
                && (forall|i: int| 0 <= i < rows.len() ==> rows[i].0 != SheetActionId::InlineEdit)
            &&& !ctx.entry.is_dir ==> (exists|i: int| 0 <= i < rows.len() && rows[i].0 == SheetActionId::InlineEdit)
                && (forall|i: int| 0 <= i < rows.len() ==> rows[i].0 != SheetActionId::Open)
        }),
{
    let rows = spec_sheet_actions(PhoneSheet::SftpEntry(ctx), sessions, connected, t).1;
    assert(rows[0].0 == (if ctx.entry.is_dir { SheetActionId::Open } else { SheetActionId::InlineEdit }));
}

/// The terminal sheet offers syncing the directory only while connected and
/// reconnecting only while disconnected.
pub proof fn law_terminal_actions_follow_connection(id: SessionId, sessions: Seq<SessionTabView>, connected: bool, t: Texts)
    ensures
        spec_sheet_actions(PhoneSheet::Terminal(id), sessions, connected, t).1[3].0 == SheetActionId::SyncToTerminal,
        spec_sheet_actions(PhoneSheet::Terminal(id), sessions, connected, t).1[3].4 == !connected,
        spec_sheet_actions(PhoneSheet::Terminal(id), sessions, connected, t).1[4].0 == SheetActionId::Reconnect,
        spec_sheet_actions(PhoneSheet::Terminal(id), sessions, connected, t).1[4].4 == connected,
{
}

/// The session switcher lists every session, in order, and ends with the
/// new-connection entry.
pub proof fn law_session_picker_lists_every_session(sessions: Seq<SessionTabView>, connected: bool, t: Texts)
    ensures
        spec_sheet_actions(PhoneSheet::Sessions, sessions, connected, t).1.len() == sessions.len() + 1,
        forall|i: int| 0 <= i < sessions.len() ==>
            #[trigger] spec_sheet_actions(PhoneSheet::Sessions, sessions, connected, t).1[i].0
                == SheetActionId::SelectSession(sessions[i].id),
        spec_sheet_actions(PhoneSheet::Sessions, sessions, connected, t).1.last().0 == SheetActionId::NewConnection,
{
}

/// Session-switch rows of different sessions have different keys.
pub proof fn law_session_keys_are_distinct(a: SessionId, b: SessionId)
    requires
        a != b,
    ensures
        spec_action_key(SheetActionId::SelectSession(a)) != spec_action_key(SheetActionId::SelectSession(b)),
{
    let p = "SelectSession(SessionId("@;
    let q = "))"@;
    let ka = spec_action_key(SheetActionId::SelectSession(a));
    let kb = spec_action_key(SheetActionId::SelectSession(b));
    if ka == kb {
        reveal_strlit("))");
        assert(ka.subrange(p.len() as int, ka.len() - q.len()) =~= decimal(a.0 as nat));
        assert(kb.subrange(p.len() as int, kb.len() - q.len()) =~= decimal(b.0 as nat));
        crate::text::lemma_decimal_injective(a.0 as nat, b.0 as nat);
    }
}

} // verus!
