//! Path confinement against a real filesystem.

use valet::tools::{ensure_within_root, resolve_for_write, within_root, ConfineError};

#[test]
fn path_within_root_allows() {
    let tmp = tempfile::tempdir().unwrap();
    let root = tmp.path().to_str().unwrap();
    let file_path = format!("{}/a.txt", root);
    let rt = tokio::runtime::Runtime::new().unwrap();
    rt.block_on(tokio::fs::write(&file_path, b"hi")).unwrap();
    let resolved = ensure_within_root(root, "a.txt").unwrap();
    let expected = dunce::canonicalize(&file_path).unwrap();
    assert_eq!(resolved.full, expected.to_str().unwrap());
}

#[test]
fn path_outside_root_rejected() {
    let tmp = tempfile::tempdir().unwrap();
    let root = tmp.path().to_str().unwrap();
    let outside = "/etc/hosts";
    let err = ensure_within_root(root, outside).err().unwrap();
    assert!(err.message().contains("escapes"));
}

#[test]
fn dotdot_traversal_rejected() {
    let err = ensure_within_root("/tmp", "../etc/hosts").err().unwrap();
    assert!(matches!(err, ConfineError::Escapes));
}

#[test]
fn component_prefix_not_string_prefix() {
    assert!(within_root("/root", "/root/file"));
    assert!(within_root("/root", "/root"));
    assert!(!within_root("/root", "/roots"));
    assert!(!within_root("/root", "/roots/file"));
    assert!(within_root("/", "/etc"));
}

#[test]
fn symlink_escape_rejected() {
    let tmp = tempfile::tempdir().unwrap();
    let root = tmp.path().to_str().unwrap();
    let link = format!("{}/link", root);
    let rt = tokio::runtime::Runtime::new().unwrap();
    rt.block_on(tokio::fs::symlink("/etc", &link)).unwrap();
    let err = ensure_within_root(root, "link/hosts").err().unwrap();
    assert!(matches!(err, ConfineError::Escapes));
}

#[test]
fn write_resolution_creates_missing_tail() {
    let tmp = tempfile::tempdir().unwrap();
    let root = tmp.path().to_str().unwrap();
    let resolved = resolve_for_write(root, "sub/dir/new.txt").unwrap();
    let canon_root = dunce::canonicalize(root).unwrap();
    assert_eq!(resolved.canon_root, canon_root.to_str().unwrap());
    assert_eq!(
        resolved.full,
        format!("{}/sub/dir/new.txt", canon_root.to_str().unwrap())
    );
}

#[test]
fn write_resolution_rejects_dotdot_tail() {
    let tmp = tempfile::tempdir().unwrap();
    let root = tmp.path().to_str().unwrap();
    let err = resolve_for_write(root, "missing/../../escape.txt").err().unwrap();
    assert!(matches!(err, ConfineError::Escapes));
}

#[test]
fn empty_input_resolves_to_root_itself() {
    let tmp = tempfile::tempdir().unwrap();
    let root = tmp.path().to_str().unwrap();
    let resolved = ensure_within_root(root, "").unwrap();
    let canon = dunce::canonicalize(root).unwrap();
    assert_eq!(resolved.full, canon.to_str().unwrap());
    assert_eq!(resolved.canon_root, canon.to_str().unwrap());
}

#[test]
fn canonical_root_resolves() {
    let canon = valet::config::canonical_root("/tmp").unwrap();
    assert_eq!(canon, dunce::canonicalize("/tmp").unwrap().to_str().unwrap());
    assert!(valet::config::canonical_root("/no/such/dir/here").is_err());
}
