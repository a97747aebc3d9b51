use rx::entry::{DirChild, Entry};
use rx::listing::{chars_le, get_display_name, read_dir_entries, sort_key_of};

fn child(path: &str, is_dir: bool) -> DirChild {
    DirChild { path: path.to_string(), is_dir, created: 7, size: 3 }
}

fn names(entries: &[Entry]) -> Vec<String> {
    entries.iter().map(|e| e.name.clone()).collect()
}

#[test]
fn listing_orders_directories_before_files() {
    let children = vec![
        child("/home/u/a.txt", false),
        child("/home/u/B", true),
        child("/home/u/c.txt", false),
    ];
    let entries = read_dir_entries("/home/u", 0, &children);
    assert_eq!(names(&entries), vec!["../", "B/", "a.txt", "c.txt"]);
}

#[test]
fn listing_of_empty_directory_has_parent_only() {
    let entries = read_dir_entries("/home/u", 42, &Vec::new());
    assert_eq!(entries.len(), 1);
    assert_eq!(
        entries[0],
        Entry {
            path: "/home/u/..".to_string(),
            name: "../".to_string(),
            is_dir: true,
            created: 42,
            size: 0,
        }
    );
}

#[test]
fn listing_at_root_still_has_parent_entry() {
    let entries = read_dir_entries("/", 0, &vec![child("/etc", true)]);
    assert_eq!(entries[0].path, "/..");
    assert_eq!(entries[0].name, "../");
    assert_eq!(entries[1].name, "etc/");
}

#[test]
fn listing_ignores_case_in_names() {
    let children = vec![
        child("/d/zeta", false),
        child("/d/Alpha", false),
        child("/d/beta", false),
        child("/d/Zoo", true),
        child("/d/apple", true),
    ];
    let entries = read_dir_entries("/d", 0, &children);
    assert_eq!(names(&entries), vec!["../", "apple/", "Zoo/", "Alpha", "beta", "zeta"]);
}

#[test]
fn listing_keeps_equal_names_in_reading_order() {
    let first = vec![child("/d/x/README", false), child("/d/y/readme", false)];
    let entries = read_dir_entries("/d", 0, &first);
    assert_eq!(entries[1].path, "/d/x/README");
    assert_eq!(entries[2].path, "/d/y/readme");
    let second = vec![child("/d/y/readme", false), child("/d/x/README", false)];
    let entries = read_dir_entries("/d", 0, &second);
    assert_eq!(entries[1].path, "/d/y/readme");
    assert_eq!(entries[2].path, "/d/x/README");
}

#[test]
fn listing_is_ordered_pairwise() {
    let children = vec![
        child("/d/m.txt", false),
        child("/d/Q", true),
        child("/d/b", true),
        child("/d/A.txt", false),
        child("/d/z", true),
        child("/d/c.rs", false),
    ];
    let entries = read_dir_entries("/d", 0, &children);
    assert_eq!(entries.len(), children.len() + 1);
    for i in 1..entries.len() {
        for j in (i + 1)..entries.len() {
            let a = &entries[i];
            let b = &entries[j];
            let by_kind = a.is_dir && !b.is_dir;
            let by_name = a.is_dir == b.is_dir
                && chars_le(&sort_key_of(&a.path), &sort_key_of(&b.path));
            assert!(by_kind || by_name);
        }
    }
}

#[test]
fn listing_keeps_what_was_read() {
    let children = vec![
        DirChild { path: "/d/file".to_string(), is_dir: false, created: 11, size: 2048 },
        DirChild { path: "/d/dir".to_string(), is_dir: true, created: 12, size: 4096 },
    ];
    let entries = read_dir_entries("/d", 0, &children);
    assert_eq!(
        entries[1],
        Entry {
            path: "/d/dir".to_string(),
            name: "dir/".to_string(),
            is_dir: true,
            created: 12,
            size: 4096,
        }
    );
    assert_eq!(
        entries[2],
        Entry {
            path: "/d/file".to_string(),
            name: "file".to_string(),
            is_dir: false,
            created: 11,
            size: 2048,
        }
    );
}

#[test]
fn display_name_has_slash_for_directories() {
    assert_eq!(get_display_name("/a/b/photos", true), "photos/");
    assert_eq!(get_display_name("/a/b/photo.png", false), "photo.png");
    assert_eq!(get_display_name("/a/b/..", false), "");
}

#[test]
fn sort_key_is_lowercase_file_name() {
    let key: String = sort_key_of("/some/where/ReadMe.MD").into_iter().collect();
    assert_eq!(key, "readme.md");
}

#[test]
fn chars_le_is_lexicographic() {
    let v = |s: &str| s.chars().collect::<Vec<char>>();
    assert!(chars_le(&v(""), &v("")));
    assert!(chars_le(&v(""), &v("a")));
    assert!(!chars_le(&v("a"), &v("")));
    assert!(chars_le(&v("abc"), &v("abd")));
    assert!(!chars_le(&v("abd"), &v("abc")));
    assert!(chars_le(&v("ab"), &v("abc")));
    assert!(!chars_le(&v("abc"), &v("ab")));
    assert!(chars_le(&v("same"), &v("same")));
    assert!(chars_le(&v("z"), &v("\u{e9}")));
}
