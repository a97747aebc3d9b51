//! The glyph shown before a name, chosen by the name's extension.

use vstd::prelude::*;
use crate::text::{chars_of, ends_with, lowercased, string_of, to_lowercase};

verus! {

/// The number of extensions that have a glyph of their own.
pub const ICON_RULE_COUNT: usize = 91;

/// Each known extension, in lowercase, with its glyph.
pub const ICON_RULES: [(&'static str, &'static str); 91] = [
    ("rs", "\u{f1617}"), ("c", "\u{e61e}"), ("cpp", "\u{e61d}"), ("cc", "\u{e61d}"),
    ("cxx", "\u{e61d}"), ("py", "\u{e606}"), ("java", "\u{e738}"), ("class", "\u{e738}"),
    ("js", "\u{e60c}"), ("jsx", "\u{e60c}"), ("json", "\u{e60b}"), ("html", "\u{e60e}"),
    ("css", "\u{e614}"), ("go", "\u{e627}"), ("php", "\u{e608}"), ("rb", "\u{e791}"),
    ("swift", "\u{e755}"), ("ts", "\u{e628}"), ("tsx", "\u{e628}"), ("sh", "\u{e795}"),
    ("bash", "\u{e795}"), ("lua", "\u{e620}"), ("r", "\u{edc1}"), ("dart", "\u{e798}"),
    ("kotlin", "\u{e634}"), ("kt", "\u{e634}"), ("scala", "\u{e737}"), ("elixir", "\u{e62d}"),
    ("ex", "\u{e62d}"), ("exs", "\u{e62d}"), ("hs", "\u{e61f}"), ("clj", "\u{e768}"),
    ("cljs", "\u{e768}"), ("cljc", "\u{e768}"), ("edn", "\u{e768}"), ("cljr", "\u{e768}"),
    ("erl", "\u{e7b1}"), ("ml", "\u{e67a}"), ("mli", "\u{e67a}"), ("sql", "\u{e706}"),
    ("m", "\u{e82a}"), ("cs", "\u{e7b2}"), ("pl", "\u{e769}"), ("asm", "\u{e6ab}"),
    ("s", "\u{e6ab}"), ("ps1", "\u{e86c}"), ("groovy", "\u{e775}"), ("jl", "\u{e624}"),
    ("fs", "\u{e7a7}"), ("fsx", "\u{e7a7}"), ("fsi", "\u{e7a7}"), ("lisp", "\u{e6b0}"),
    ("lsp", "\u{e6b0}"), ("f", "\u{f121a}"), ("for", "\u{f121a}"), ("f90", "\u{f121a}"),
    ("ada", "\u{e6b5}"), ("yaml", "\u{e615}"), ("yml", "\u{e615}"), ("ini", "\u{e615}"),
    ("config", "\u{e615}"), ("babelrc", "\u{e615}"), ("toml", "\u{e6b2}"), ("lock", "\u{f023}"),
    ("xml", "\u{e60e}"), ("env", "\u{f048b}"), ("dockerfile", "\u{f0868}"),
    ("makefile", "\u{e673}"), ("mp3", "\u{e638}"), ("wav", "\u{e638}"), ("flac", "\u{e638}"),
    ("mp4", "\u{f52c}"), ("mkv", "\u{f52c}"), ("avi", "\u{f52c}"), ("jpg", "\u{e60d}"),
    ("jpeg", "\u{e60d}"), ("png", "\u{e60d}"), ("gif", "\u{e60d}"), ("svg", "\u{e60d}"),
    ("md", "\u{e609}"), ("pdf", "\u{eaeb}"), ("doc", "\u{e6a5}"), ("docx", "\u{e6a5}"),
    ("zip", "\u{f1c6}"), ("rar", "\u{f1c6}"), ("7z", "\u{f1c6}"), ("tar", "\u{f1c6}"),
    ("gz", "\u{f1c6}"), ("git", "\u{e725}"), ("github", "\u{e709}"), ("gitignore", "\u{e702}"),
];

/// The glyph of a plain text file.
pub const TEXT_ICON: &'static str = "\u{e612}";

/// The glyph of a CMake project file.
pub const CMAKE_ICON: &'static str = "\u{e615}";

/// The glyph of a directory whose name says nothing more.
pub const FOLDER_ICON: &'static str = "\u{f024b}";

/// The glyph of a file whose name says nothing more.
pub const FILE_ICON: &'static str = "\u{f0219}";

/// The part of the name behind its last `.`, or the whole name where it has none.
pub open spec fn after_last_dot(name: Seq<char>) -> Seq<char>
    decreases name.len(),
{
    if name.len() == 0 {
        name
    } else if name.last() == '.' {
        Seq::empty()
    } else {
        after_last_dot(name.drop_last()).push(name.last())
    }
}

/// The text without the `/` characters at its end.
pub open spec fn without_trailing_slashes(text: Seq<char>) -> Seq<char>
    decreases text.len(),
{
    if text.len() > 0 && text.last() == '/' {
        without_trailing_slashes(text.drop_last())
    } else {
        text
    }
}

/// The extension by which a name's glyph is chosen: what stands behind
/// the last `.`, without trailing `/`, in lowercase.
pub open spec fn extension_of(name: Seq<char>) -> Seq<char> {
    lowercased(without_trailing_slashes(after_last_dot(name)))
}

/// The glyph of the first rule from index `from` on whose extension is `ext`.
pub open spec fn rule_glyph(ext: Seq<char>, from: int) -> Option<Seq<char>>
    decreases ICON_RULE_COUNT - from,
{
    if from < 0 || from >= ICON_RULE_COUNT {
        None
    } else if ICON_RULES[from].0@ == ext {
        Some(ICON_RULES[from].1@)
    } else {
        rule_glyph(ext, from + 1)
    }
}

/// The glyph for a name: that of its extension where the extension is
/// known; for `txt` the CMake glyph where the whole name is
/// `cmakelists.txt` in any case, and the text glyph otherwise; for any
/// other name the folder glyph where it ends in `/`, and the file glyph
/// where it does not.
pub open spec fn icon_of(name: Seq<char>) -> Seq<char> {
    let ext = extension_of(name);
    if ext == "txt"@ {
        if lowercased(name) == "cmakelists.txt"@ {
            CMAKE_ICON@
        } else {
            TEXT_ICON@
        }
    } else {
        match rule_glyph(ext, 0) {
            Some(glyph) => glyph,
            None => if ends_with(name, '/') {
                FOLDER_ICON@
            } else {
                FILE_ICON@
            },
        }
    }
}

fn tail_after_dot(name: &Vec<char>) -> (tail: Vec<char>)
    ensures
        tail@ == after_last_dot(name@),
{
    let mut start: usize = name.len();
    while start > 0 && name[start - 1] != '.'
        invariant
            start <= name.len(),
            forall|j: int| start <= j < name.len() ==> name@[j] != '.',
        decreases start,
    {
        start -= 1;
    }
    let mut tail: Vec<char> = Vec::new();
    let mut i: usize = start;
    assert(after_last_dot(name@.take(start as int)) =~= Seq::<char>::empty()) by {
        if start > 0 {
            assert(name@.take(start as int).last() == '.');
        }
    }
    while i < name.len()
        invariant
            start <= i <= name.len(),
            forall|j: int| start <= j < name.len() ==> name@[j] != '.',
            tail@ == after_last_dot(name@.take(i as int)),
        decreases name.len() - i,
    {
        proof {
            let next = name@.take(i + 1);
            assert(next.drop_last() =~= name@.take(i as int));
            assert(next.last() == name@[i as int]);
        }
        tail.push(name[i]);
        i += 1;
    }
    assert(name@.take(i as int) =~= name@);
    tail
}

fn trim_slashes(text: &mut Vec<char>)
    ensures
        final(text)@ == without_trailing_slashes(old(text)@),
{
    while text.len() > 0 && text[text.len() - 1] == '/'
        invariant
            without_trailing_slashes(text@) == without_trailing_slashes(old(text)@),
        decreases text.len(),
    {
        let ghost before = text@;
        text.pop();
        assert(text@ =~= before.drop_last());
    }
}

fn same_text(a: &str, b: &str) -> (same: bool)
    ensures
        same == (a@ == b@),
{
    a.to_owned() == b.to_owned()
}

fn find_rule(ext: &str) -> (glyph: Option<&'static str>)
    ensures
        match glyph {
            Some(g) => rule_glyph(ext@, 0) == Some(g@),
            None => rule_glyph(ext@, 0).is_none(),
        },
{
    let mut i: usize = 0;
    while i < ICON_RULE_COUNT
        invariant
            i <= ICON_RULE_COUNT,
            rule_glyph(ext@, 0) == rule_glyph(ext@, i as int),
        decreases ICON_RULE_COUNT - i,
    {
        if same_text(ICON_RULES[i].0, ext) {
            return Some(ICON_RULES[i].1);
        }
        i += 1;
    }
    None
}

/// The glyph for a file name.
pub fn get_file_icon(file_name: &str) -> (icon: &'static str)
    ensures
        icon@ == icon_of(file_name@),
{
    let name = chars_of(file_name);
    let mut tail = tail_after_dot(&name);
    trim_slashes(&mut tail);
    let extension = to_lowercase(string_of(&tail).as_str());
    if same_text(extension.as_str(), "txt") {
        if same_text(to_lowercase(file_name).as_str(), "cmakelists.txt") {
            CMAKE_ICON
        } else {
            TEXT_ICON
        }
    } else {
        match find_rule(extension.as_str()) {
            Some(glyph) => glyph,
            None => if name.len() > 0 && name[name.len() - 1] == '/' {
                FOLDER_ICON
            } else {
                FILE_ICON
            },
        }
    }
}

} // verus!
