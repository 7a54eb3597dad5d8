use kt_ui::sftp_path::{
    display_path, is_root, join_path, normalize_sftp_path_input, parent_path, remote_file_name,
    sanitize_local_file_name, trim_sftp_trailing_slashes,
};

#[test]
fn parent_path_handles_root_and_nested_paths() {
    assert_eq!(parent_path("/"), "/");
    assert_eq!(parent_path("."), "/");
    assert_eq!(parent_path("/root"), "/");
    assert_eq!(parent_path("/root/.ssh"), "/root");
    assert_eq!(parent_path("/var/log/"), "/var");
}

#[test]
fn join_path_keeps_posix_paths_stable() {
    assert_eq!(join_path("/", ".ssh"), "/.ssh");
    assert_eq!(join_path("/root", ".ssh"), "/root/.ssh");
    assert_eq!(join_path("/root/", ".ssh"), "/root/.ssh");
    assert_eq!(join_path(".", ".ssh"), ".ssh");
}

#[test]
fn normalize_sftp_path_input_trims_and_maps_home_display() {
    assert_eq!(
        normalize_sftp_path_input("  /var/log/ "),
        Some("/var/log".to_string())
    );
    assert_eq!(normalize_sftp_path_input("////"), Some("/".to_string()));
    assert_eq!(normalize_sftp_path_input("~"), Some(".".to_string()));
    assert_eq!(
        normalize_sftp_path_input("~/logs/"),
        Some("./logs".to_string())
    );
    assert_eq!(normalize_sftp_path_input("   "), None);
}

#[test]
fn home_shorthand_edge_cases() {
    assert_eq!(normalize_sftp_path_input("~/"), Some(".".to_string()));
    assert_eq!(normalize_sftp_path_input("~//srv"), Some("./srv".to_string()));
    assert_eq!(normalize_sftp_path_input("~user"), Some("~user".to_string()));
    assert_eq!(normalize_sftp_path_input("\t./a//\n"), Some("./a".to_string()));
    assert_eq!(trim_sftp_trailing_slashes(""), "/");
    assert_eq!(trim_sftp_trailing_slashes("a/"), "a");
}

#[test]
fn display_path_and_root_detection() {
    assert_eq!(display_path("."), "~");
    assert_eq!(display_path("/var"), "/var");
    assert!(is_root("/"));
    assert!(is_root("."));
    assert!(!is_root("/var"));
    assert!(!is_root("./logs"));
}

#[test]
fn external_edit_temp_names_are_sanitized() {
    assert_eq!(remote_file_name("/root/.bashrc"), ".bashrc");
    assert_eq!(sanitize_local_file_name("../a b.txt"), ".._a_b.txt");
    assert_eq!(remote_file_name("/"), "remote-file");
    assert_eq!(remote_file_name("dir/file/"), "file");
    assert_eq!(sanitize_local_file_name(""), "remote-file");
    assert_eq!(sanitize_local_file_name("报告.txt"), "__.txt");
}

#[test]
fn entering_and_leaving_a_directory_round_trips() {
    for base in ["/", "/root", "/var/log/", "relative"] {
        let joined = join_path(base, "child");
        let expected = if base == "/" { "/".to_string() } else { base.trim_end_matches('/').to_string() };
        assert_eq!(parent_path(&joined), expected);
        assert_eq!(remote_file_name(&joined), "child");
    }
}

#[test]
fn root_directories_disable_the_back_button() {
    assert!(is_root("/"));
    assert!(is_root("."));
    assert!(!is_root("/var"));
    assert!(!is_root("./logs"));
}
