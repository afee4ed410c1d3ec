use fileops::listing::sort_entries;
use fileops::models::{FileInfo, FileKind};

fn entry(name: &str, kind: FileKind, path: &str) -> FileInfo {
    FileInfo { name: String::from(name), kind, path: String::from(path) }
}

#[test]
fn single_directory_entry_is_kept() {
    let mut v = vec![entry("sub", FileKind::Directory, "/tmp/root/sub")];
    sort_entries(&mut v);
    assert_eq!(v.len(), 1);
    assert_eq!(v[0].name, "sub");
    assert!(matches!(v[0].kind, FileKind::Directory));
    assert_eq!(v[0].path, "/tmp/root/sub");
}

#[test]
fn directories_precede_files() {
    let mut v = vec![
        entry("b.txt", FileKind::File, "/d/b.txt"),
        entry("zeta", FileKind::Directory, "/d/zeta"),
        entry("A.txt", FileKind::File, "/d/A.txt"),
        entry("Alpha", FileKind::Directory, "/d/Alpha"),
    ];
    sort_entries(&mut v);
    let names: Vec<&str> = v.iter().map(|e| e.name.as_str()).collect();
    assert_eq!(names, vec!["Alpha", "zeta", "A.txt", "b.txt"]);
    assert!(matches!(v[0].kind, FileKind::Directory));
    assert!(matches!(v[1].kind, FileKind::Directory));
    assert!(matches!(v[2].kind, FileKind::File));
    assert!(matches!(v[3].kind, FileKind::File));
}

#[test]
fn names_compare_case_insensitively() {
    let mut v = vec![
        entry("banana", FileKind::File, "/d/banana"),
        entry("APPLE", FileKind::File, "/d/APPLE"),
        entry("Cherry", FileKind::File, "/d/Cherry"),
    ];
    sort_entries(&mut v);
    let names: Vec<&str> = v.iter().map(|e| e.name.as_str()).collect();
    assert_eq!(names, vec!["APPLE", "banana", "Cherry"]);
}

#[test]
fn empty_listing_stays_empty() {
    let mut v: Vec<FileInfo> = Vec::new();
    sort_entries(&mut v);
    assert!(v.is_empty());
}

#[test]
fn equal_names_of_both_kinds_split_by_kind() {
    let mut v = vec![
        entry("same", FileKind::File, "/d/same"),
        entry("same", FileKind::Directory, "/d/same"),
    ];
    sort_entries(&mut v);
    assert!(matches!(v[0].kind, FileKind::Directory));
    assert!(matches!(v[1].kind, FileKind::File));
}
