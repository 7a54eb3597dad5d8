use kt_ui::session_data::SftpEntry;
use kt_ui::upload::{folder_batch, upload_child_order, child_remote_path, upload_entry, LocalEntryKind, local_file_name, overwrite_paths, upload_plan, upload_roots, SftpBatchEntry, UploadRoot};

fn strings(items: &[&str]) -> Vec<String> {
    items.iter().map(|s| s.to_string()).collect()
}

fn remote(name: &str, is_dir: bool) -> SftpEntry {
    SftpEntry {
        name: name.to_string(),
        is_dir,
        size: 0,
        modified: None,
        permissions: None,
        user: None,
        group: None,
        uid: None,
        gid: None,
    }
}

fn root(path: &str, is_dir: bool) -> UploadRoot {
    UploadRoot { path: path.to_string(), is_dir }
}

#[test]
fn nested_and_repeated_drops_collapse_to_their_outermost_folder() {
    let roots = upload_roots(&strings(&["/tmp/a/b.txt", "/tmp/z", "/tmp/a", "/tmp/a", "/tmp/a/", "/tmp/ab"]));
    assert_eq!(roots, strings(&["/tmp/a", "/tmp/ab", "/tmp/z"]));
    assert!(upload_roots(&[]).is_empty());
}

#[test]
fn local_names_are_the_last_component() {
    assert_eq!(local_file_name("/tmp/dir/"), Ok("dir".to_string()));
    assert_eq!(local_file_name("notes.txt"), Ok("notes.txt".to_string()));
    assert_eq!(local_file_name("/"), Err("无法读取本地条目名称：/".to_string()));
    assert_eq!(local_file_name("/tmp/.."), Err("无法读取本地条目名称：/tmp/..".to_string()));
}

#[test]
fn upload_conflicts_are_reported_by_name() {
    let remote_entries = vec![remote("a.txt", false), remote("logs", true)];
    let plan = upload_plan(&[root("/l/a.txt", false), root("/l/b.txt", false)], &remote_entries).unwrap();
    assert_eq!(plan.conflicts, strings(&["a.txt"]));
    assert!(!plan.confirm_all_files);
    let plan = upload_plan(&[root("/l/logs", true)], &remote_entries).unwrap();
    assert_eq!(plan.conflicts, strings(&["logs"]));
    assert!(plan.confirm_all_files);
}

#[test]
fn a_dropped_folder_without_conflicts_asks_to_confirm_every_root() {
    let plan = upload_plan(&[root("/l/new", true), root("/l/c.txt", false)], &[]).unwrap();
    assert_eq!(plan.conflicts, strings(&["new", "c.txt"]));
    assert!(plan.confirm_all_files);
    let plan = upload_plan(&[root("/l/c.txt", false)], &[]).unwrap();
    assert!(plan.conflicts.is_empty());
    assert!(!plan.confirm_all_files);
}

#[test]
fn kind_mismatches_and_repeated_names_cannot_be_uploaded() {
    let remote_entries = vec![remote("logs", true)];
    assert_eq!(
        upload_plan(&[root("/l/logs", false)], &remote_entries),
        Err("本地条目 logs 与远端同名条目类型不同，无法合并".to_string())
    );
    assert_eq!(
        upload_plan(&[root("/a/x", false), root("/b/x", false)], &[]),
        Err("多个本地条目将上传到同一个远端名称：x".to_string())
    );
    assert_eq!(upload_plan(&[root("/", true)], &[]), Err("无法读取本地条目名称：/".to_string()));
}

#[test]
fn overwrites_need_consent_and_follow_the_plan() {
    let entries = vec![
        SftpBatchEntry { local: "/l/d".to_string(), remote: "/r/d".to_string(), is_dir: true },
        SftpBatchEntry { local: "/l/d/f".to_string(), remote: "/r/d/f".to_string(), is_dir: false },
    ];
    let conflicts = strings(&["d", "g"]);
    assert!(overwrite_paths(&entries, &conflicts, "/r", false, true).is_empty());
    assert_eq!(overwrite_paths(&entries, &conflicts, "/r", true, true), strings(&["/r/d/f"]));
    assert_eq!(overwrite_paths(&entries, &conflicts, "/r/", true, false), strings(&["/r/d", "/r/g"]));
}

#[test]
fn folders_and_files_become_batch_items_and_links_are_refused() {
    assert_eq!(
        upload_entry("/tmp/site", "/srv/site", LocalEntryKind::Directory),
        Ok(SftpBatchEntry { local: "/tmp/site".to_string(), remote: "/srv/site".to_string(), is_dir: true })
    );
    assert_eq!(
        upload_entry("/tmp/a.txt", "/srv/a.txt", LocalEntryKind::File),
        Ok(SftpBatchEntry { local: "/tmp/a.txt".to_string(), remote: "/srv/a.txt".to_string(), is_dir: false })
    );
    assert_eq!(upload_entry("/tmp/l", "/srv/l", LocalEntryKind::Symlink), Err("不支持上传符号链接：/tmp/l".to_string()));
    assert_eq!(upload_entry("/dev/x", "/srv/x", LocalEntryKind::Special), Err("不支持上传特殊文件：/dev/x".to_string()));
}

#[test]
fn children_go_under_their_folder_by_name() {
    assert_eq!(child_remote_path("/srv/site", "/tmp/site/index.html"), Ok("/srv/site/index.html".to_string()));
    assert_eq!(child_remote_path("/", "/tmp/a"), Ok("/a".to_string()));
    assert_eq!(child_remote_path("/srv", "/tmp/.."), Err("无法读取本地条目名称：/tmp/..".to_string()));
}

#[test]
fn folder_children_are_uploaded_in_path_order() {
    let children = strings(&["/tmp/site/b.txt", "/tmp/site/a", "/tmp/site/B", "/tmp/site/a.txt"]);
    assert_eq!(upload_child_order(children), strings(&["/tmp/site/B", "/tmp/site/a", "/tmp/site/a.txt", "/tmp/site/b.txt"]));
}

#[test]
fn a_folder_comes_before_the_items_inside_it() {
    let children = vec![
        vec![SftpBatchEntry { local: "/tmp/site/a.txt".to_string(), remote: "/srv/site/a.txt".to_string(), is_dir: false }],
        vec![
            SftpBatchEntry { local: "/tmp/site/css".to_string(), remote: "/srv/site/css".to_string(), is_dir: true },
            SftpBatchEntry { local: "/tmp/site/css/b.css".to_string(), remote: "/srv/site/css/b.css".to_string(), is_dir: false },
        ],
        vec![],
    ];
    let batch = folder_batch("/tmp/site", "/srv/site", children.clone());
    assert_eq!(batch[0], SftpBatchEntry { local: "/tmp/site".to_string(), remote: "/srv/site".to_string(), is_dir: true });
    assert_eq!(batch[1..].to_vec(), children.concat());
    assert_eq!(folder_batch("/tmp/empty", "/srv/empty", vec![]).len(), 1);
}
