use cobalt_installer::archive::{extraction_ops, ArchiveEntry};
use cobalt_installer::fsmodel::{FsOp, FsSim};

fn file_entry(name: &str, data: &[u8]) -> ArchiveEntry {
    ArchiveEntry { name: name.to_string(), is_dir: false, data: data.to_vec() }
}

fn dir_entry(name: &str) -> ArchiveEntry {
    ArchiveEntry { name: name.to_string(), is_dir: true, data: Vec::new() }
}

#[test]
fn round_trip_two_files() {
    let entries = vec![file_entry("a/b.txt", b"hello"), file_entry("c.txt", b"world")];
    let ops = extraction_ops("/tmp/sd", &entries);
    assert_eq!(
        ops,
        vec![
            FsOp::CreateDirAll("/tmp/sd/a".to_string()),
            FsOp::WriteFile("/tmp/sd/a/b.txt".to_string(), b"hello".to_vec()),
            FsOp::CreateDirAll("/tmp/sd".to_string()),
            FsOp::WriteFile("/tmp/sd/c.txt".to_string(), b"world".to_vec()),
        ]
    );

    let mut fs = FsSim::new();
    fs.apply_all(&ops);
    assert_eq!(fs.file_content("/tmp/sd/a/b.txt"), Some(b"hello".to_vec()));
    assert_eq!(fs.file_content("/tmp/sd/c.txt"), Some(b"world".to_vec()));
    assert_eq!(fs.file_content("/tmp/sd/a"), None);
    assert!(fs.dir_exists("/tmp/sd/a"));
    assert!(fs.dir_exists("/tmp/sd"));
}

#[test]
fn directory_entries_create_directories() {
    let entries = vec![dir_entry("a"), file_entry("a/b.txt", b"hi")];
    let ops = extraction_ops("/dest", &entries);
    assert_eq!(
        ops,
        vec![
            FsOp::CreateDirAll("/dest/a".to_string()),
            FsOp::CreateDirAll("/dest/a".to_string()),
            FsOp::WriteFile("/dest/a/b.txt".to_string(), b"hi".to_vec()),
        ]
    );
}

#[test]
fn overwrite_replaces_previous_contents() {
    let mut fs = FsSim::new();
    fs.apply(&FsOp::WriteFile("/dest/x.txt".to_string(), b"old".to_vec()));

    let entries = vec![file_entry("x.txt", b"new")];
    fs.apply_all(&extraction_ops("/dest", &entries));
    assert_eq!(fs.file_content("/dest/x.txt"), Some(b"new".to_vec()));
}

// The entry name is joined onto the destination root unsanitized, so a
// parent-traversal name is planned to land outside the destination root.
// This pins the current, documented gap.
#[test]
fn traversal_entry_escapes_destination_root() {
    let entries = vec![file_entry("../evil.txt", b"boo")];
    let ops = extraction_ops("/tmp/sd", &entries);
    assert_eq!(
        ops,
        vec![
            FsOp::CreateDirAll("/tmp/sd/..".to_string()),
            FsOp::WriteFile("/tmp/sd/../evil.txt".to_string(), b"boo".to_vec()),
        ]
    );
}
