use file_dialog::listing::{drive_names, read_folder, sort_entries, Entry};
use file_dialog::paths::{get_file_name, is_drive_root};

fn entry(path: &str, is_dir: bool) -> Entry {
    Entry { path: path.to_string(), is_dir }
}

fn paths(v: &[Entry]) -> Vec<&str> {
    v.iter().map(|e| e.path.as_str()).collect()
}

#[test]
fn drive_roots_are_recognised() {
    assert!(is_drive_root("C:\\"));
    assert!(is_drive_root("Z:\\"));
    assert!(!is_drive_root("c:\\"));
    assert!(!is_drive_root("C:"));
    assert!(!is_drive_root("C:\\Windows"));
    assert!(!is_drive_root("C:/"));
    assert!(!is_drive_root(""));
    assert!(!is_drive_root("Ä:\\"));
}

#[test]
fn file_names_are_final_components() {
    assert_eq!(get_file_name("/tmp/foo.txt", false), "foo.txt");
    assert_eq!(get_file_name("/usr/bin/", true), "bin");
    assert_eq!(get_file_name("tmp/foo.txt/.", false), "foo.txt");
    assert_eq!(get_file_name("/", true), "");
    assert_eq!(get_file_name("foo/..", true), "");
}

#[test]
fn drive_root_directory_shows_in_full() {
    assert_eq!(get_file_name("C:\\", true), "C:\\");
}

#[test]
fn sort_puts_folders_first_then_names() {
    let sorted = sort_entries(vec![
        entry("/d/b.txt", false),
        entry("/d/zeta", true),
        entry("/d/a.txt", false),
        entry("/d/alpha", true),
        entry("/d/B.txt", false),
    ]);
    assert_eq!(paths(&sorted), vec!["/d/alpha", "/d/zeta", "/d/B.txt", "/d/a.txt", "/d/b.txt"]);
}

#[test]
fn sort_orders_by_name_not_by_path() {
    let sorted = sort_entries(vec![entry("/z/a", false), entry("/a/b", false)]);
    assert_eq!(paths(&sorted), vec!["/z/a", "/a/b"]);
}

#[test]
fn sort_compares_prefixes_and_characters() {
    let sorted = sort_entries(vec![
        entry("/d/ab", false),
        entry("/d/a", false),
        entry("/d/é", false),
        entry("/d/z", false),
    ]);
    assert_eq!(paths(&sorted), vec!["/d/a", "/d/ab", "/d/z", "/d/é"]);
}

#[test]
fn sort_is_stable_for_equal_names() {
    let sorted = sort_entries(vec![
        entry("/x/same", false),
        entry("/y/same", false),
        entry("/a/other", true),
    ]);
    assert_eq!(paths(&sorted), vec!["/a/other", "/x/same", "/y/same"]);
}

#[test]
fn sort_of_nothing_is_nothing() {
    assert!(sort_entries(Vec::new()).is_empty());
}

#[test]
fn read_folder_lists_drives_then_sorted_entries() {
    let listing = read_folder(
        vec!["C:\\".to_string()],
        Ok(vec![entry("/d/file", false), entry("/d/dir", true)]),
    );
    assert_eq!(listing, Ok(vec!["C:\\".to_string(), "/d/dir".to_string(), "/d/file".to_string()]));
}

#[test]
fn read_folder_keeps_the_error() {
    let listing = read_folder(vec!["C:\\".to_string()], Err("No such file or directory".to_string()));
    assert_eq!(listing, Err("No such file or directory".to_string()));
}

#[test]
fn drive_names_follow_set_bits() {
    assert!(drive_names(0).is_empty());
    assert_eq!(drive_names(0b101), vec!["A:\\".to_string(), "C:\\".to_string()]);
    assert_eq!(drive_names(1 << 25), vec!["Z:\\".to_string()]);
    assert_eq!(drive_names(1 << 31), vec!["`:\\".to_string()]);
    assert_eq!(drive_names(u32::MAX).len(), 32);
}

#[test]
fn listing_does_not_depend_on_read_order() {
    let a = sort_entries(vec![
        entry("/d/b.txt", false),
        entry("/d/zeta", true),
        entry("/d/a.txt", false),
        entry("/d/alpha", true),
    ]);
    let b = sort_entries(vec![
        entry("/d/alpha", true),
        entry("/d/a.txt", false),
        entry("/d/zeta", true),
        entry("/d/b.txt", false),
    ]);
    assert_eq!(paths(&a), paths(&b));
}
