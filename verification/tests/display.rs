use rx::display::{
    creation_date_or_blank, decimal_digits, default_display_modules, get_creation_date, get_icon,
    get_large_spacer, get_medium_spacer, get_name, get_size, get_small_spacer, get_spacer, Builtin,
    DisplayModule, MAX_TIMESTAMP, MIN_TIMESTAMP,
};
use rx::entry::Entry;
use rx::icons::get_file_icon;
use rx::state::column_widths_of;

fn file(name: &str, size: u64, created: u64) -> Entry {
    Entry {
        path: format!("/d/{}", name),
        name: name.to_string(),
        is_dir: false,
        created,
        size,
    }
}

fn dir(name: &str) -> Entry {
    Entry {
        path: format!("/d/{}", name.trim_end_matches('/')),
        name: name.to_string(),
        is_dir: true,
        created: 0,
        size: 4096,
    }
}

#[test]
fn size_in_bytes() {
    assert_eq!(get_size(&file("f", 0, 0)), "  0  B");
    assert_eq!(get_size(&file("f", 5, 0)), "  5  B");
    assert_eq!(get_size(&file("f", 999, 0)), "999  B");
    assert_eq!(get_size(&file("f", 1023, 0)), "1023  B");
}

#[test]
fn size_in_larger_units() {
    assert_eq!(get_size(&file("f", 1024, 0)), "  1 KB");
    assert_eq!(get_size(&file("f", 1536, 0)), "  1 KB");
    assert_eq!(get_size(&file("f", 1048575, 0)), "1023 KB");
    assert_eq!(get_size(&file("f", 1048576, 0)), "  1 MB");
    assert_eq!(get_size(&file("f", 5368709120, 0)), "  5 GB");
    assert_eq!(get_size(&file("f", 1099511627775, 0)), "1023 GB");
    assert_eq!(get_size(&file("f", 1099511627776, 0)), "  1 TB");
    assert_eq!(get_size(&file("f", 3298534883333, 0)), "  3 TB");
}

#[test]
fn size_of_huge_files_is_rounded_as_a_double() {
    assert_eq!(get_size(&file("f", 9007199254740992, 0)), "8192 TB");
    assert_eq!(get_size(&file("f", 9007199254740993, 0)), "8192 TB");
    assert_eq!(get_size(&file("f", 9008298766368767, 0)), "8193 TB");
    assert_eq!(get_size(&file("f", 9223372036854775808, 0)), "8388608 TB");
    assert_eq!(get_size(&file("f", u64::MAX, 0)), "16777216 TB");
}

#[test]
fn size_of_huge_files_agrees_with_floating_point() {
    let tera = 1024.0 * 1024.0 * 1024.0 * 1024.0;
    let mut size: u64 = 9007199254740992 - 3000;
    for step in 0..4000u64 {
        let expected = format!("{:>3} TB", (size as f64 / tera) as u64);
        assert_eq!(get_size(&file("f", size, 0)), expected);
        size += 1 + step % 3;
    }
    let mut size: u64 = u64::MAX - 5000;
    while size < u64::MAX {
        let expected = format!("{:>3} TB", (size as f64 / tera) as u64);
        assert_eq!(get_size(&file("f", size, 0)), expected);
        size += 1;
    }
    for k in 8190u64..8200 {
        for d in 0..3000u64 {
            let size = k * (1u64 << 40) - d;
            let expected = format!("{:>3} TB", (size as f64 / tera) as u64);
            assert_eq!(get_size(&file("f", size, 0)), expected);
        }
    }
}

#[test]
fn size_of_a_directory_is_blank() {
    assert_eq!(get_size(&dir("sub/")), "");
}

#[test]
fn decimal_digits_of_numbers() {
    let text = |n: u64| decimal_digits(n).into_iter().collect::<String>();
    assert_eq!(text(0), "0");
    assert_eq!(text(9), "9");
    assert_eq!(text(10), "10");
    assert_eq!(text(1234567890), "1234567890");
    assert_eq!(text(u64::MAX), "18446744073709551615");
}

#[test]
fn creation_date_in_utc() {
    assert_eq!(get_creation_date(&file("f", 0, 0)), "Thu Jan  1 00:00:00 1970");
    assert_eq!(get_creation_date(&file("f", 0, 86399)), "Thu Jan  1 23:59:59 1970");
    assert_eq!(get_creation_date(&file("f", 0, 1431648000)), "Fri May 15 00:00:00 2015");
    assert_eq!(get_creation_date(&file("f", 0, 1700000000)), "Tue Nov 14 22:13:20 2023");
}

#[test]
fn creation_date_wraps_large_seconds() {
    assert_eq!(creation_date_or_blank(&file("f", 0, u64::MAX)), "Wed Dec 31 23:59:59 1969");
}

#[test]
fn creation_date_reaches_as_far_as_chrono_does() {
    assert_eq!(MIN_TIMESTAMP, chrono::DateTime::<chrono::Utc>::MIN_UTC.timestamp());
    assert_eq!(MAX_TIMESTAMP, chrono::DateTime::<chrono::Utc>::MAX_UTC.timestamp());
    assert!(chrono::DateTime::from_timestamp(MIN_TIMESTAMP, 0).is_some());
    assert!(chrono::DateTime::from_timestamp(MIN_TIMESTAMP - 1, 0).is_none());
    assert!(chrono::DateTime::from_timestamp(MAX_TIMESTAMP, 0).is_some());
    assert!(chrono::DateTime::from_timestamp(MAX_TIMESTAMP + 1, 0).is_none());

    let last = file("f", 0, MAX_TIMESTAMP as u64);
    assert_eq!(get_creation_date(&last), "Mon Dec 31 23:59:59 +262142");
    assert_eq!(creation_date_or_blank(&last), "Mon Dec 31 23:59:59 +262142");
    assert_eq!(creation_date_or_blank(&file("f", 0, MAX_TIMESTAMP as u64 + 1)), "");
    let first = file("f", 0, MIN_TIMESTAMP as u64);
    assert_eq!(get_creation_date(&first), "Thu Jan  1 00:00:00 -262143");
    assert_eq!(creation_date_or_blank(&file("f", 0, (MIN_TIMESTAMP - 1) as u64)), "");
}

#[test]
fn creation_date_out_of_range_is_blank() {
    assert_eq!(creation_date_or_blank(&file("f", 0, i64::MAX as u64)), "");
    assert_eq!(creation_date_or_blank(&file("f", 0, 1u64 << 63)), "");
    assert_eq!(creation_date_or_blank(&file("f", 0, 1431648000)), "Fri May 15 00:00:00 2015");
}

#[test]
fn name_and_icon_modules() {
    assert_eq!(get_name(&file("notes.md", 1, 0)), "notes.md");
    assert_eq!(get_name(&dir("src/")), "src/");
    assert_eq!(get_icon(&file("main.rs", 1, 0)), "\u{f1617}");
    assert_eq!(get_icon(&dir("src/")), "\u{f024b}");
}

#[test]
fn spacers() {
    let e = file("f", 0, 0);
    assert_eq!(get_small_spacer(&e), "  ");
    assert_eq!(get_medium_spacer(&e), "    ");
    assert_eq!(get_large_spacer(&e), "        ");
    assert_eq!(get_spacer(0), "");
    assert_eq!(get_spacer(3), "   ");
}

#[test]
fn default_modules_with_and_without_glyphs() {
    assert_eq!(
        default_display_modules(false),
        vec![
            Builtin::Name,
            Builtin::SmallSpacer,
            Builtin::CreationDate,
            Builtin::Size,
            Builtin::SmallSpacer,
        ]
    );
    assert_eq!(
        default_display_modules(true),
        vec![
            Builtin::Icon,
            Builtin::Name,
            Builtin::SmallSpacer,
            Builtin::CreationDate,
            Builtin::Size,
            Builtin::SmallSpacer,
        ]
    );
}

#[test]
fn builtin_modules_render_their_fragment() {
    let e = file("a.py", 2048, 0);
    assert_eq!(Builtin::Icon.render(&e), "\u{e606}");
    assert_eq!(Builtin::Name.render(&e), "a.py");
    assert_eq!(Builtin::CreationDate.render(&e), "Thu Jan  1 00:00:00 1970");
    assert_eq!(Builtin::Size.render(&e), "  2 KB");
    assert_eq!(Builtin::SmallSpacer.render(&e), "  ");
    assert_eq!(Builtin::MediumSpacer.fragment(&e), "    ");
    assert_eq!(Builtin::LargeSpacer.fragment(&e), "        ");
}

#[test]
fn icons_by_extension() {
    assert_eq!(get_file_icon("main.rs"), "\u{f1617}");
    assert_eq!(get_file_icon("MAIN.RS"), "\u{f1617}");
    assert_eq!(get_file_icon("lib.c"), "\u{e61e}");
    assert_eq!(get_file_icon("a.b.cpp"), "\u{e61d}");
    assert_eq!(get_file_icon("x.tar.gz"), "\u{f1c6}");
    assert_eq!(get_file_icon("photo.JPEG"), "\u{e60d}");
    assert_eq!(get_file_icon("Cargo.toml"), "\u{e6b2}");
    assert_eq!(get_file_icon("Cargo.lock"), "\u{f023}");
    assert_eq!(get_file_icon(".gitignore"), "\u{e702}");
    assert_eq!(get_file_icon(".env"), "\u{f048b}");
    assert_eq!(get_file_icon("prog.f90"), "\u{f121a}");
    assert_eq!(get_file_icon("doc.pdf"), "\u{eaeb}");
}

#[test]
fn icons_of_text_files() {
    assert_eq!(get_file_icon("notes.txt"), "\u{e612}");
    assert_eq!(get_file_icon("CMakeLists.txt"), "\u{e615}");
    assert_eq!(get_file_icon("cmakelists.TXT"), "\u{e615}");
    assert_eq!(get_file_icon("my.cmakelists.txt"), "\u{e612}");
}

#[test]
fn icons_without_known_extension() {
    assert_eq!(get_file_icon("README"), "\u{f0219}");
    assert_eq!(get_file_icon("archive.xyz"), "\u{f0219}");
    assert_eq!(get_file_icon("trailing."), "\u{f0219}");
    assert_eq!(get_file_icon(""), "\u{f0219}");
    assert_eq!(get_file_icon("src/"), "\u{f024b}");
    assert_eq!(get_file_icon("../"), "\u{f024b}");
    assert_eq!(get_file_icon("my.dir/"), "\u{f024b}");
}

#[test]
fn icons_of_names_that_are_an_extension() {
    assert_eq!(get_file_icon("Makefile"), "\u{e673}");
    assert_eq!(get_file_icon("Dockerfile"), "\u{f0868}");
    assert_eq!(get_file_icon("git/"), "\u{e725}");
    assert_eq!(get_file_icon("scripts.py/"), "\u{e606}");
    assert_eq!(get_file_icon("c///"), "\u{e61e}");
}

#[test]
fn column_widths_skip_the_first_row() {
    let row = |cells: &[&str]| cells.iter().map(|c| c.to_string()).collect::<Vec<String>>();
    let rows = vec![
        row(&["a very long parent label", "x"]),
        row(&["ab", "wide"]),
        row(&["abcd", ""]),
        row(&["\u{e9}"]),
    ];
    assert_eq!(column_widths_of(&rows, 2), vec![4, 4]);
    assert_eq!(column_widths_of(&rows, 3), vec![4, 4, 0]);
    assert_eq!(column_widths_of(&rows, 0), Vec::<usize>::new());
    assert_eq!(column_widths_of(&rows[..1].to_vec(), 2), vec![0, 0]);
    assert_eq!(column_widths_of(&Vec::new(), 1), vec![0]);
}

#[test]
fn column_widths_count_bytes() {
    let rows = vec![vec![String::new()], vec!["\u{f1617}".to_string()], vec!["abc".to_string()]];
    assert_eq!(column_widths_of(&rows, 1), vec![4]);
}
