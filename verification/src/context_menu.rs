//! The desktop context menu: which items a right click offers for a saved
//! server, a server group, a remote entry or the blank area of a listing,
//! and what the copy items copy.

use vstd::prelude::*;
use crate::app_logic::DEFAULT_GROUP_NAME;
use crate::session_data::SessionId;
use crate::sftp_path::{join_path, spec_join_path};
use crate::sidebar::SftpEntryContext;
use crate::text::str_eq;

verus! {

/// A desktop editor the user configured: its display name and the command
/// that opens a file with it.
#[derive(Clone, Debug, PartialEq, Eq)]
pub struct EditorEntry {
    pub name: String,
    pub command: String,
}

/// What was right-clicked.
#[derive(Clone, Debug, PartialEq, Eq)]
pub enum ContextMenuTarget {
    /// A saved server, by name.
    Profile(String),
    /// A server group, by name.
    Group(String),
    /// A remote file or directory.
    SftpEntry(SftpEntryContext),
    /// The blank area of a listing of `path`.
    SftpBlank { session_id: SessionId, path: String },
}

/// One item of the context menu, in the order shown.
#[derive(Clone, Copy, Debug, PartialEq, Eq, Structural)]
pub enum ContextMenuItem {
    ProfileEdit,
    ProfileCopy,
    ProfileDelete,
    GroupNew,
    GroupRename,
    GroupDelete,
    Refresh,
    Open,
    EditInline,
    EditExternal,
    OpenWithSystem,
    /// Open with the configured editor at this position.
    OpenWithEditor(usize),
    CopyPath,
    CopyName,
    NewFolder,
    Rename,
    Delete,
    Separator,
}

/// The items below the editing part of an entry's menu.
pub open spec fn entry_tail_items() -> Seq<ContextMenuItem> {
    seq![
        ContextMenuItem::Separator,
        ContextMenuItem::CopyPath,
        ContextMenuItem::CopyName,
        ContextMenuItem::Separator,
        ContextMenuItem::NewFolder,
        ContextMenuItem::Rename,
        ContextMenuItem::Delete,
    ]
}

/// The items offered for a target, with `editor_count` configured editors:
/// a server can be edited, copied and deleted; a group gives a new group
/// and renaming, and deletion unless it is the default group; a directory
/// refreshes and opens, a file refreshes and is edited inline, externally,
/// with the system's application or with each configured editor; every
/// entry can have its path or name copied, a folder made beside it, and be
/// renamed or deleted; the blank area refreshes or makes a folder.
pub open spec fn spec_context_menu_items(target: ContextMenuTarget, editor_count: nat) -> Seq<ContextMenuItem> {
    match target {
        ContextMenuTarget::Profile(_) => seq![
            ContextMenuItem::ProfileEdit,
            ContextMenuItem::ProfileCopy,
            ContextMenuItem::ProfileDelete,
        ],
        ContextMenuTarget::Group(name) => if name@ == DEFAULT_GROUP_NAME@ {
            seq![ContextMenuItem::GroupNew, ContextMenuItem::GroupRename]
        } else {
            seq![ContextMenuItem::GroupNew, ContextMenuItem::GroupRename, ContextMenuItem::GroupDelete]
        },
        ContextMenuTarget::SftpEntry(ctx) => if ctx.entry.is_dir {
            seq![ContextMenuItem::Refresh, ContextMenuItem::Open] + entry_tail_items()
        } else {
            seq![
                ContextMenuItem::Refresh,
                ContextMenuItem::EditInline,
                ContextMenuItem::EditExternal,
                ContextMenuItem::OpenWithSystem,
            ] + Seq::new(editor_count, |i: int| ContextMenuItem::OpenWithEditor(i as usize)) + entry_tail_items()
        },
        ContextMenuTarget::SftpBlank { .. } => seq![ContextMenuItem::Refresh, ContextMenuItem::NewFolder],
    }
}

/// The items of the context menu for a target.
pub fn context_menu_items(target: &ContextMenuTarget, editors: &[EditorEntry]) -> (r: Vec<ContextMenuItem>)
    ensures
        r@ == spec_context_menu_items(*target, editors@.len()),
{
    let mut items: Vec<ContextMenuItem> = Vec::new();
    match target {
        ContextMenuTarget::Profile(_) => {
            items.push(ContextMenuItem::ProfileEdit);
            items.push(ContextMenuItem::ProfileCopy);
            items.push(ContextMenuItem::ProfileDelete);
            assert(items@ =~= spec_context_menu_items(*target, editors@.len()));
        },
        ContextMenuTarget::Group(name) => {
            items.push(ContextMenuItem::GroupNew);
            items.push(ContextMenuItem::GroupRename);
            if !str_eq(name.as_str(), DEFAULT_GROUP_NAME) {
                items.push(ContextMenuItem::GroupDelete);
            }
            assert(items@ =~= spec_context_menu_items(*target, editors@.len()));
        },
        ContextMenuTarget::SftpEntry(ctx) => {
            items.push(ContextMenuItem::Refresh);
            if ctx.entry.is_dir {
                items.push(ContextMenuItem::Open);
            } else {
                items.push(ContextMenuItem::EditInline);
                items.push(ContextMenuItem::EditExternal);
                items.push(ContextMenuItem::OpenWithSystem);
                let ghost head = items@;
                let mut i: usize = 0;
                while i < editors.len()
                    invariant
                        i <= editors@.len(),
                        items@ == head + Seq::new(i as nat, |k: int| ContextMenuItem::OpenWithEditor(k as usize)),
                    decreases editors@.len() - i,
                {
                    items.push(ContextMenuItem::OpenWithEditor(i));
                    assert(items@ =~= head + Seq::new((i + 1) as nat, |k: int| ContextMenuItem::OpenWithEditor(k as usize)));
                    i = i + 1;
                }
            }
            let ghost before_tail = items@;
            items.push(ContextMenuItem::Separator);
            items.push(ContextMenuItem::CopyPath);
            items.push(ContextMenuItem::CopyName);
            items.push(ContextMenuItem::Separator);
            items.push(ContextMenuItem::NewFolder);
            items.push(ContextMenuItem::Rename);
            items.push(ContextMenuItem::Delete);
            assert(items@ =~= before_tail + entry_tail_items());
            assert(items@ =~= spec_context_menu_items(*target, editors@.len()));
        },
        ContextMenuTarget::SftpBlank { .. } => {
            items.push(ContextMenuItem::Refresh);
            items.push(ContextMenuItem::NewFolder);
            assert(items@ =~= spec_context_menu_items(*target, editors@.len()));
        },
    }
    items
}

/// A group's menu offers deletion exactly when it is not the default
/// group: the default group can never be deleted.
pub proof fn law_default_group_cannot_be_deleted(name: String, editor_count: nat)
    ensures
        name@ == DEFAULT_GROUP_NAME@ ==> !spec_context_menu_items(ContextMenuTarget::Group(name), editor_count).contains(
            ContextMenuItem::GroupDelete,
        ),
        name@ != DEFAULT_GROUP_NAME@ ==> spec_context_menu_items(ContextMenuTarget::Group(name), editor_count).contains(
            ContextMenuItem::GroupDelete,
        ),
{
    let items = spec_context_menu_items(ContextMenuTarget::Group(name), editor_count);
    if name@ == DEFAULT_GROUP_NAME@ {
        assert(items[0] != ContextMenuItem::GroupDelete);
        assert(items[1] != ContextMenuItem::GroupDelete);
    } else {
        assert(items[2] == ContextMenuItem::GroupDelete);
    }
}

/// The text a copy item of an entry's menu copies: the entry's full remote
/// path, or its name; `None` for any other item.
pub open spec fn spec_context_copy_text(ctx: SftpEntryContext, item: ContextMenuItem) -> Option<Seq<char>> {
    match item {
        ContextMenuItem::CopyPath => Some(spec_join_path(ctx.base_path@, ctx.entry.name@)),
        ContextMenuItem::CopyName => Some(ctx.entry.name@),
        _ => None,
    }
}

/// The text a copy item of an entry's menu copies.
pub fn context_copy_text(ctx: &SftpEntryContext, item: ContextMenuItem) -> (r: Option<String>)
    ensures
        match r {
            Some(t) => spec_context_copy_text(*ctx, item) == Some(t@),
            None => spec_context_copy_text(*ctx, item) is None,
        },
{
    match item {
        ContextMenuItem::CopyPath => Some(join_path(ctx.base_path.as_str(), ctx.entry.name.as_str())),
        ContextMenuItem::CopyName => Some(ctx.entry.name.clone()),
        _ => None,
    }
}

} // verus!
