use tts_core::vault::{
    is_hidden_name, is_markdown_name, resolve_safe_path, FileEntry, VaultConfig, VaultError,
};

#[test]
fn test_resolve_safe_path() {
    let root = "vault_root";

    // Valid paths
    let p1 = resolve_safe_path(root, "note.md");
    assert!(p1.is_ok());
    assert_eq!(p1.unwrap(), "vault_root/note.md");

    let p2 = resolve_safe_path(root, "sub/note.md");
    assert!(p2.is_ok());
    assert_eq!(p2.unwrap(), "vault_root/sub/note.md");

    // Invalid paths
    assert!(resolve_safe_path(root, "/absolute.md").is_err());
    assert!(resolve_safe_path(root, "/etc/passwd").is_err());

    assert!(resolve_safe_path(root, "../outside.md").is_err());
    assert!(resolve_safe_path(root, "folder/../escape.md").is_err());
    assert!(resolve_safe_path(root, "..").is_err());
}

#[test]
fn resolve_safe_path_messages() {
    let abs = resolve_safe_path("root", "/tmp/x").unwrap_err();
    assert_eq!(abs.message(), "Path must be relative");
    let up = resolve_safe_path("root", "a/../b").unwrap_err();
    assert_eq!(
        up.message(),
        "Invalid path component in 'a/../b': only normal components allowed"
    );
}

#[test]
fn resolve_safe_path_allows_dot_components() {
    let p = resolve_safe_path("root", "./note.md");
    assert_eq!(p.unwrap(), "root/./note.md");
}

#[test]
fn hidden_names() {
    assert!(is_hidden_name(".git"));
    assert!(is_hidden_name(".liminal"));
    assert!(!is_hidden_name("notes"));
    assert!(!is_hidden_name(""));
}

#[test]
fn markdown_names() {
    assert!(is_markdown_name("note.md"));
    assert!(is_markdown_name("a..md"));
    assert!(!is_markdown_name(".md"));
    assert!(!is_markdown_name("note.txt"));
    assert!(!is_markdown_name("md"));
}

#[test]
fn vault_structs_carry_fields() {
    let cfg = VaultConfig { root_path: "/vault".to_string(), name: "My Vault".to_string() };
    assert_eq!(cfg.root_path, "/vault");
    assert_eq!(cfg.name, "My Vault");
    let entry = FileEntry { path: "sub/note.md".to_string(), is_dir: false, mtime: Some(12) };
    assert_eq!(entry.path, "sub/note.md");
    assert!(!entry.is_dir);
    assert_eq!(entry.mtime, Some(12));
    let err = VaultError::InvalidComponent { path: "x/..".to_string() };
    assert!(err.message().contains("x/.."));
}
