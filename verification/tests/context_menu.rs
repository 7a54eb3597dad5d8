use kt_ui::context_menu::{context_copy_text, context_menu_items, ContextMenuItem, ContextMenuTarget, EditorEntry};
use kt_ui::session_data::{SessionId, SftpEntry};
use kt_ui::sidebar::SftpEntryContext;

fn entry_ctx(name: &str, is_dir: bool) -> SftpEntryContext {
    SftpEntryContext {
        session_id: SessionId(1),
        base_path: "/var/log".to_string(),
        entry: SftpEntry {
            name: name.to_string(),
            is_dir,
            size: 10,
            modified: None,
            permissions: None,
            user: None,
            group: None,
            uid: None,
            gid: None,
        },
    }
}

fn editors() -> Vec<EditorEntry> {
    vec![
        EditorEntry { name: "VS Code".to_string(), command: "code".to_string() },
        EditorEntry { name: "Vim".to_string(), command: "vim".to_string() },
    ]
}

#[test]
fn profile_menu_edits_copies_and_deletes() {
    let items = context_menu_items(&ContextMenuTarget::Profile("prod".to_string()), &editors());
    assert_eq!(items, vec![ContextMenuItem::ProfileEdit, ContextMenuItem::ProfileCopy, ContextMenuItem::ProfileDelete]);
}

#[test]
fn default_group_menu_has_no_delete_item() {
    let items = context_menu_items(&ContextMenuTarget::Group("NoBrand".to_string()), &[]);
    assert_eq!(items, vec![ContextMenuItem::GroupNew, ContextMenuItem::GroupRename]);
    let items = context_menu_items(&ContextMenuTarget::Group("Work".to_string()), &[]);
    assert_eq!(items, vec![ContextMenuItem::GroupNew, ContextMenuItem::GroupRename, ContextMenuItem::GroupDelete]);
}

#[test]
fn directory_menu_opens_and_offers_no_editing() {
    let items = context_menu_items(&ContextMenuTarget::SftpEntry(entry_ctx("nginx", true)), &editors());
    assert_eq!(
        items,
        vec![
            ContextMenuItem::Refresh,
            ContextMenuItem::Open,
            ContextMenuItem::Separator,
            ContextMenuItem::CopyPath,
            ContextMenuItem::CopyName,
            ContextMenuItem::Separator,
            ContextMenuItem::NewFolder,
            ContextMenuItem::Rename,
            ContextMenuItem::Delete,
        ]
    );
}

#[test]
fn file_menu_lists_every_configured_editor() {
    let items = context_menu_items(&ContextMenuTarget::SftpEntry(entry_ctx("syslog", false)), &editors());
    assert_eq!(
        items,
        vec![
            ContextMenuItem::Refresh,
            ContextMenuItem::EditInline,
            ContextMenuItem::EditExternal,
            ContextMenuItem::OpenWithSystem,
            ContextMenuItem::OpenWithEditor(0),
            ContextMenuItem::OpenWithEditor(1),
            ContextMenuItem::Separator,
            ContextMenuItem::CopyPath,
            ContextMenuItem::CopyName,
            ContextMenuItem::Separator,
            ContextMenuItem::NewFolder,
            ContextMenuItem::Rename,
            ContextMenuItem::Delete,
        ]
    );
}

#[test]
fn blank_area_menu_refreshes_or_makes_a_folder() {
    let target = ContextMenuTarget::SftpBlank { session_id: SessionId(1), path: "/".to_string() };
    assert_eq!(context_menu_items(&target, &editors()), vec![ContextMenuItem::Refresh, ContextMenuItem::NewFolder]);
}

#[test]
fn copy_items_copy_the_full_path_or_the_name() {
    let ctx = entry_ctx("syslog", false);
    assert_eq!(context_copy_text(&ctx, ContextMenuItem::CopyPath), Some("/var/log/syslog".to_string()));
    assert_eq!(context_copy_text(&ctx, ContextMenuItem::CopyName), Some("syslog".to_string()));
    assert_eq!(context_copy_text(&ctx, ContextMenuItem::Rename), None);
    let mut root = entry_ctx("etc", true);
    root.base_path = "/".to_string();
    assert_eq!(context_copy_text(&root, ContextMenuItem::CopyPath), Some("/etc".to_string()));
}
