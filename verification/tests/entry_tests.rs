use lsr::entry::{file_entry_line, header_line, should_expand};
use lsr::meta::{Config, EntryKind, EntryMeta, LsError, PosixInfo};

fn config(all: bool, directory: bool, long: bool, not_human_readable: bool) -> Config {
    Config { all, directory, long, not_human_readable }
}

fn regular_meta(size: u64) -> EntryMeta {
    EntryMeta {
        kind: EntryKind::Regular,
        size,
        modified: 1609459200,
        posix: Some(PosixInfo { mode: 0o644, nlink: 1, uid: 0, gid: 0 }),
    }
}

#[test]
fn missing_file_is_not_accessible() {
    let cfg = config(false, false, false, false);
    let r = file_entry_line(&cfg, "no_such_file", None, None);
    match r {
        Err(LsError::NotAccessible(n)) => assert_eq!(n, "no_such_file"),
        _ => panic!("expected NotAccessible"),
    }
}

#[test]
fn error_messages() {
    let e = LsError::NotAccessible(String::from("gone"));
    assert_eq!(e.message(), "cannot access 'gone'");
    let e = LsError::LinkUnreadable(String::from("lnk"));
    assert_eq!(e.message(), "cannot read link 'lnk'");
    let e = LsError::DirectoryUnreadable(String::from("d"));
    assert_eq!(e.message(), "failed to read dir 'd'");
}

#[test]
fn hidden_entries_are_skipped_without_all() {
    let cfg = config(false, false, false, false);
    let m = regular_meta(10);
    let r = file_entry_line(&cfg, "/home/u/.bashrc", Some(&m), None);
    assert!(matches!(r, Ok(None)));
}

#[test]
fn hidden_entries_appear_with_all() {
    let cfg = config(true, false, false, false);
    let m = regular_meta(10);
    let r = file_entry_line(&cfg, "/home/u/.bashrc", Some(&m), None);
    assert_eq!(r.unwrap().unwrap(), ".bashrc");
}

#[test]
fn dot_markers_are_always_shown() {
    let cfg = config(false, false, false, false);
    let m = EntryMeta { kind: EntryKind::Directory, ..regular_meta(4096) };
    assert_eq!(file_entry_line(&cfg, ".", Some(&m), None).unwrap().unwrap(), "./");
    assert_eq!(file_entry_line(&cfg, "..", Some(&m), None).unwrap().unwrap(), "../");
}

#[test]
fn short_format_appends_directory_marker() {
    let cfg = config(false, false, false, false);
    let dir = EntryMeta { kind: EntryKind::Directory, ..regular_meta(4096) };
    assert_eq!(file_entry_line(&cfg, "/srv/www", Some(&dir), None).unwrap().unwrap(), "www/");
    let file = regular_meta(1);
    assert_eq!(file_entry_line(&cfg, "/srv/note", Some(&file), None).unwrap().unwrap(), "note");
}

#[test]
fn symlink_reports_itself_not_its_target() {
    let cfg = config(false, false, true, true);
    let m = EntryMeta {
        kind: EntryKind::Symlink,
        size: 7,
        modified: 1609459200,
        posix: Some(PosixInfo { mode: 0o777, nlink: 1, uid: 0, gid: 0 }),
    };
    let target = String::from("/etc/hosts");
    let r = file_entry_line(&cfg, "/tmp/link", Some(&m), Some(&target)).unwrap().unwrap();
    // the type glyph is the symlink's own, the size is the link's own,
    // and the one-hop target is appended
    assert!(r.starts_with("lrwxrwxrwx "));
    assert!(r.ends_with(" link -> /etc/hosts"));
    assert!(r.contains(" 7 "));
}

#[test]
fn unreadable_link_target_is_fatal() {
    let cfg = config(false, false, true, false);
    let m = EntryMeta { kind: EntryKind::Symlink, ..regular_meta(7) };
    let r = file_entry_line(&cfg, "/tmp/link", Some(&m), None);
    match r {
        Err(LsError::LinkUnreadable(n)) => assert_eq!(n, "link"),
        _ => panic!("expected LinkUnreadable"),
    }
}

#[test]
fn long_format_without_posix_fields() {
    let cfg = config(false, false, true, true);
    let m = EntryMeta { kind: EntryKind::Regular, size: 42, modified: 1609459200, posix: None };
    let r = file_entry_line(&cfg, "data.bin", Some(&m), None).unwrap().unwrap();
    assert!(r.starts_with("- "));
    assert!(r.contains("        42 "));
    assert!(r.ends_with(" data.bin"));
}

#[test]
fn long_format_posix_line_fields() {
    let cfg = config(false, false, true, true);
    let m = EntryMeta {
        kind: EntryKind::Regular,
        size: 1536,
        modified: 1609459200,
        posix: Some(PosixInfo { mode: 0o644, nlink: 3, uid: 0, gid: 0 }),
    };
    let r = file_entry_line(&cfg, "notes.txt", Some(&m), None).unwrap().unwrap();
    assert!(r.starts_with("-rw-r--r-- 3 "));
    assert!(r.contains("      1536 "));
    assert!(r.ends_with(" notes.txt"));
}

#[test]
fn directory_only_flag_keeps_directory_as_single_entry() {
    let cfg_expand = config(false, false, false, false);
    let cfg_dir = config(false, true, false, false);
    assert!(should_expand(&cfg_expand, true));
    assert!(!should_expand(&cfg_dir, true));
    assert!(!should_expand(&cfg_expand, false));
    // the directory itself still produces exactly its own line
    let m = EntryMeta { kind: EntryKind::Directory, ..regular_meta(4096) };
    assert_eq!(file_entry_line(&cfg_dir, "/srv/www", Some(&m), None).unwrap().unwrap(), "www/");
}

#[test]
fn directory_headers() {
    assert_eq!(header_line("src"), "src:");
    assert_eq!(header_line("."), ".:");
}
