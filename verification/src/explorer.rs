//! Setting up the browser: where display scripts are looked for.

use vstd::prelude::*;
use crate::seqs::views;
use crate::text::{append_str, concat_str};

verus! {

/// The two patterns under which a directory offers scripts: a script by
/// its name, and a directory of that name with an `init.lua` in it.
pub open spec fn patterns_of(dir: Seq<char>) -> Seq<Seq<char>> {
    seq![dir + "/?.lua"@, dir + "/?/init.lua"@]
}

/// The patterns of all the directories, in order.
pub open spec fn patterns_of_all(dirs: Seq<Seq<char>>) -> Seq<Seq<char>>
    decreases dirs.len(),
{
    if dirs.len() == 0 {
        Seq::empty()
    } else {
        patterns_of_all(dirs.drop_last()) + patterns_of(dirs.last())
    }
}

/// The texts with `;` between them.
pub open spec fn joined_with_semicolons(parts: Seq<Seq<char>>) -> Seq<char>
    decreases parts.len(),
{
    if parts.len() == 0 {
        Seq::empty()
    } else if parts.len() == 1 {
        parts[0]
    } else {
        joined_with_semicolons(parts.drop_last()) + seq![';'] + parts.last()
    }
}

/// The places in which scripts are looked for, in order: each plugin
/// directory, the configuration directory itself, and what the path held
/// before.
pub open spec fn search_patterns(
    plugin_dirs: Seq<Seq<char>>,
    config_dir: Seq<char>,
    old_path: Seq<char>,
) -> Seq<Seq<char>> {
    patterns_of_all(plugin_dirs) + patterns_of(config_dir) + seq![old_path]
}

fn push_patterns(paths: &mut Vec<String>, dir: &str)
    ensures
        views(final(paths)@) == views(old(paths)@) + patterns_of(dir@),
{
    let first = concat_str(dir, "/?.lua");
    let second = concat_str(dir, "/?/init.lua");
    paths.push(first);
    paths.push(second);
    assert(views(paths@) =~= views(old(paths)@) + patterns_of(dir@));
}

fn join_with_semicolons(parts: &Vec<String>) -> (out: String)
    ensures
        out@ == joined_with_semicolons(views(parts@)),
{
    let mut out = String::new();
    let mut i: usize = 0;
    while i < parts.len()
        invariant
            i <= parts.len(),
            out@ == joined_with_semicolons(views(parts@).take(i as int)),
        decreases parts.len() - i,
    {
        proof {
            let next = views(parts@).take(i + 1);
            assert(next.drop_last() =~= views(parts@).take(i as int));
            assert(next.last() == parts[i as int]@);
            if i == 0 {
                assert(Seq::<char>::empty() + parts[i as int]@ =~= parts[i as int]@);
            }
        }
        if i > 0 {
            out.push(';');
        }
        append_str(&mut out, parts[i].as_str());
        i += 1;
    }
    assert(views(parts@).take(i as int) =~= views(parts@));
    out
}

/// The search path for display scripts: the patterns of each plugin
/// directory, those of the configuration directory, and the old path, with
/// `;` between them.
pub fn lua_search_path(plugin_dirs: &Vec<String>, config_dir: &str, old_path: &str) -> (path:
    String)
    ensures
        path@ == joined_with_semicolons(search_patterns(views(plugin_dirs@), config_dir@, old_path@)),
{
    let mut paths: Vec<String> = Vec::new();
    let mut i: usize = 0;
    assert(views(paths@) =~= patterns_of_all(views(plugin_dirs@).take(0)));
    while i < plugin_dirs.len()
        invariant
            i <= plugin_dirs.len(),
            views(paths@) == patterns_of_all(views(plugin_dirs@).take(i as int)),
        decreases plugin_dirs.len() - i,
    {
        proof {
            let next = views(plugin_dirs@).take(i + 1);
            assert(next.drop_last() =~= views(plugin_dirs@).take(i as int));
            assert(next.last() == plugin_dirs[i as int]@);
        }
        push_patterns(&mut paths, plugin_dirs[i].as_str());
        i += 1;
    }
    assert(views(plugin_dirs@).take(i as int) =~= views(plugin_dirs@));
    push_patterns(&mut paths, config_dir);
    let ghost before = views(paths@);
    paths.push(old_path.to_owned());
    assert(views(paths@) =~= before + seq![old_path@]);
    join_with_semicolons(&paths)
}

/// The title of the terminal window for a directory.
pub fn window_title(current_path: &str) -> (title: String)
    ensures
        title@ == "rx - "@ + current_path@,
{
    concat_str("rx - ", current_path)
}

} // verus!
