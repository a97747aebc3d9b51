//! The order of a directory listing: the parent entry, then directories,
//! then files, each group by file name without regard to case.

use vstd::multiset::Multiset;
use vstd::prelude::*;
use crate::entry::{
    display_name, entry_of, parent_label, sort_key, DirChild, DirChildView, Entry, EntryView,
};
use crate::paths::{base_name_of, join, joined};
use crate::seqs::views;
use crate::text::{chars_of, lemma_lex_le_total, lemma_lex_le_transitive, lex_le, to_lowercase};

verus! {

/// `s` with `e` put behind the last entry whose key is not greater than its own.
pub open spec fn insert_by_key(s: Seq<EntryView>, e: EntryView) -> Seq<EntryView>
    decreases s.len(),
{
    if s.len() == 0 || lex_le(sort_key(s.last().path), sort_key(e.path)) {
        s.push(e)
    } else {
        insert_by_key(s.drop_last(), e).push(s.last())
    }
}

/// The entries ordered by key; entries with equal keys keep their order.
pub open spec fn sorted_by_key(s: Seq<EntryView>) -> Seq<EntryView>
    decreases s.len(),
{
    if s.len() == 0 {
        Seq::empty()
    } else {
        insert_by_key(sorted_by_key(s.drop_last()), s.last())
    }
}

/// The entries of the children that are directories (`dirs` true) or that
/// are not (`dirs` false), in the order of the children.
pub open spec fn entries_of_kind(children: Seq<DirChildView>, dirs: bool) -> Seq<EntryView>
    decreases children.len(),
{
    if children.len() == 0 {
        Seq::empty()
    } else {
        let rest = entries_of_kind(children.drop_last(), dirs);
        if children.last().is_dir == dirs {
            rest.push(entry_of(children.last()))
        } else {
            rest
        }
    }
}

/// The entry that leads to the parent of `dir`.
pub open spec fn parent_entry(dir: Seq<char>, created: u64) -> EntryView {
    EntryView {
        path: joined(dir, seq!['.', '.']),
        name: parent_label(),
        is_dir: true,
        created,
        size: 0,
    }
}

/// The listing of `dir`: the parent entry, the directories by key, the files by key.
pub open spec fn listing(dir: Seq<char>, parent_created: u64, children: Seq<DirChildView>) -> Seq<
    EntryView,
> {
    seq![parent_entry(dir, parent_created)] + sorted_by_key(entries_of_kind(children, true))
        + sorted_by_key(entries_of_kind(children, false))
}

/// Where `e` goes in `s`: behind `s[at - 1]`, whose key is not greater, and
/// before the entries from `at` on, whose keys are all greater.
pub proof fn lemma_insert_position(s: Seq<EntryView>, e: EntryView, at: int)
    requires
        0 <= at <= s.len(),
        at > 0 ==> lex_le(sort_key(s[at - 1].path), sort_key(e.path)),
        forall|j: int| at <= j < s.len() ==> !lex_le(sort_key(s[j].path), sort_key(e.path)),
    ensures
        insert_by_key(s, e) == s.insert(at, e),
    decreases s.len() - at,
{
    if at == s.len() {
        assert(s.push(e) =~= s.insert(at, e));
    } else {
        lemma_insert_position(s.drop_last(), e, at);
        assert(s.drop_last().insert(at, e).push(s.last()) =~= s.insert(at, e));
    }
}

/// The index at which `insert_by_key` puts `e` into `s`.
pub open spec fn insert_position(s: Seq<EntryView>, e: EntryView) -> int
    decreases s.len(),
{
    if s.len() == 0 || lex_le(sort_key(s.last().path), sort_key(e.path)) {
        s.len() as int
    } else {
        insert_position(s.drop_last(), e)
    }
}

/// `insert_by_key` inserts at `insert_position`, behind an entry whose key
/// is not greater and before entries whose keys are all greater.
pub proof fn lemma_insert_by_key(s: Seq<EntryView>, e: EntryView)
    ensures
        0 <= insert_position(s, e) <= s.len(),
        insert_by_key(s, e) == s.insert(insert_position(s, e), e),
        insert_position(s, e) > 0 ==> lex_le(
            sort_key(s[insert_position(s, e) - 1].path),
            sort_key(e.path),
        ),
        forall|j: int|
            insert_position(s, e) <= j < s.len() ==> !lex_le(
                sort_key(#[trigger] s[j].path),
                sort_key(e.path),
            ),
    decreases s.len(),
{
    if s.len() == 0 || lex_le(sort_key(s.last().path), sort_key(e.path)) {
        assert(s.push(e) =~= s.insert(s.len() as int, e));
    } else {
        lemma_insert_by_key(s.drop_last(), e);
        let at = insert_position(s.drop_last(), e);
        assert(s.drop_last().insert(at, e).push(s.last()) =~= s.insert(at, e));
        assert forall|j: int| at <= j < s.len() implies !lex_le(
            sort_key(#[trigger] s[j].path),
            sort_key(e.path),
        ) by {
            if j < s.len() - 1 {
                assert(s.drop_last()[j] == s[j]);
            }
        }
    }
}

/// Whether the keys never decrease along the sequence.
pub open spec fn ordered_by_key(s: Seq<EntryView>) -> bool {
    forall|i: int, j: int|
        0 <= i < j < s.len() ==> lex_le(sort_key(#[trigger] s[i].path), sort_key(#[trigger] s[j].path))
}

/// Inserting by key into an ordered sequence leaves it ordered.
pub proof fn lemma_insert_keeps_order(s: Seq<EntryView>, e: EntryView)
    requires
        ordered_by_key(s),
    ensures
        ordered_by_key(insert_by_key(s, e)),
{
    lemma_insert_by_key(s, e);
    let at = insert_position(s, e);
    let t = s.insert(at, e);
    assert forall|i: int, j: int| 0 <= i < j < t.len() implies lex_le(
        sort_key(#[trigger] t[i].path),
        sort_key(#[trigger] t[j].path),
    ) by {
        if j < at {
            assert(t[i] == s[i] && t[j] == s[j]);
        } else if j == at {
            assert(t[i] == s[i] && t[j] == e);
            if i < at - 1 {
                lemma_lex_le_transitive(
                    sort_key(s[i].path),
                    sort_key(s[at - 1].path),
                    sort_key(e.path),
                );
            }
        } else if i == at {
            assert(t[j] == s[j - 1]);
            lemma_lex_le_total(sort_key(s[j - 1].path), sort_key(e.path));
        } else if i > at {
            assert(t[i] == s[i - 1] && t[j] == s[j - 1]);
        } else {
            assert(t[i] == s[i] && t[j] == s[j - 1]);
        }
    }
}

/// Sorting gives an ordered sequence with the same entries, each as often
/// as before.
pub proof fn lemma_sorted_by_key(s: Seq<EntryView>)
    ensures
        ordered_by_key(sorted_by_key(s)),
        sorted_by_key(s).len() == s.len(),
        sorted_by_key(s).to_multiset() == s.to_multiset(),
    decreases s.len(),
{
    broadcast use vstd::seq_lib::to_multiset_build, vstd::seq_lib::to_multiset_insert;

    if s.len() == 0 {
        assert(sorted_by_key(s) =~= s);
    } else {
        let rest = sorted_by_key(s.drop_last());
        lemma_sorted_by_key(s.drop_last());
        lemma_insert_keeps_order(rest, s.last());
        lemma_insert_by_key(rest, s.last());
        assert(s.drop_last().push(s.last()) =~= s);
        assert(rest.insert(insert_position(rest, s.last()), s.last()).to_multiset()
            == rest.to_multiset().insert(s.last()));
        assert(s.drop_last().push(s.last()).to_multiset() == s.drop_last().to_multiset().insert(
            s.last(),
        ));
    }
}

/// Every entry of a kind is of that kind.
pub proof fn lemma_entries_of_kind(children: Seq<DirChildView>, dirs: bool)
    ensures
        forall|i: int|
            0 <= i < entries_of_kind(children, dirs).len() ==> (#[trigger] entries_of_kind(
                children,
                dirs,
            )[i]).is_dir == dirs,
    decreases children.len(),
{
    if children.len() > 0 {
        lemma_entries_of_kind(children.drop_last(), dirs);
        let rest = entries_of_kind(children.drop_last(), dirs);
        let all = entries_of_kind(children, dirs);
        assert forall|i: int| 0 <= i < all.len() implies (#[trigger] all[i]).is_dir == dirs by {
            if i < rest.len() {
                assert(all[i] == rest[i]);
            }
        }
    }
}

/// Sorting the entries of a kind leaves entries of that kind.
pub proof fn lemma_sorted_kind(children: Seq<DirChildView>, dirs: bool)
    ensures
        forall|i: int|
            0 <= i < sorted_by_key(entries_of_kind(children, dirs)).len() ==> (
            #[trigger] sorted_by_key(entries_of_kind(children, dirs))[i]).is_dir == dirs,
{
    let plain = entries_of_kind(children, dirs);
    let sorted = sorted_by_key(plain);
    lemma_sorted_by_key(plain);
    lemma_entries_of_kind(children, dirs);
    assert forall|i: int| 0 <= i < sorted.len() implies (#[trigger] sorted[i]).is_dir == dirs by {
        assert(sorted.contains(sorted[i]));
        vstd::seq_lib::to_multiset_contains(sorted, sorted[i]);
        vstd::seq_lib::to_multiset_contains(plain, sorted[i]);
        assert(plain.contains(sorted[i]));
        let k = choose|k: int| 0 <= k < plain.len() && plain[k] == sorted[i];
        assert(plain[k].is_dir == dirs);
    }
}

/// Whether `a` may stand before `b` in a listing: a directory before a
/// file, or two of a kind with `a`'s key not greater than `b`'s.
pub open spec fn in_order(a: EntryView, b: EntryView) -> bool {
    ||| a.is_dir && !b.is_dir
    ||| a.is_dir == b.is_dir && lex_le(sort_key(a.path), sort_key(b.path))
}

/// A listing starts with the parent entry, and of any two later entries the
/// earlier is a directory and the later a file, or they are of one kind and
/// the earlier's lowercase file name is not greater than the later's.
pub proof fn lemma_listing_order(dir: Seq<char>, parent_created: u64, children: Seq<DirChildView>)
    ensures
        listing(dir, parent_created, children).len() == children.len() + 1,
        listing(dir, parent_created, children)[0] == parent_entry(dir, parent_created),
        forall|i: int, j: int|
            0 < i < j < listing(dir, parent_created, children).len() ==> in_order(
                #[trigger] listing(dir, parent_created, children)[i],
                #[trigger] listing(dir, parent_created, children)[j],
            ),
{
    let all = listing(dir, parent_created, children);
    let dirs = sorted_by_key(entries_of_kind(children, true));
    let files = sorted_by_key(entries_of_kind(children, false));
    lemma_sorted_by_key(entries_of_kind(children, true));
    lemma_sorted_by_key(entries_of_kind(children, false));
    lemma_sorted_kind(children, true);
    lemma_sorted_kind(children, false);
    lemma_kinds_partition(children);
    assert forall|i: int, j: int| 0 < i < j < all.len() implies in_order(
        #[trigger] all[i],
        #[trigger] all[j],
    ) by {
        if j <= dirs.len() {
            assert(all[i] == dirs[i - 1] && all[j] == dirs[j - 1]);
        } else if i <= dirs.len() {
            assert(all[i] == dirs[i - 1] && all[j] == files[j - 1 - dirs.len()]);
        } else {
            assert(all[i] == files[i - 1 - dirs.len()] && all[j] == files[j - 1 - dirs.len()]);
        }
    }
}

/// Every child is among the directories or among the files, never both.
pub proof fn lemma_kinds_partition(children: Seq<DirChildView>)
    ensures
        entries_of_kind(children, true).len() + entries_of_kind(children, false).len()
            == children.len(),
        entries_of_kind(children, true).to_multiset().add(
            entries_of_kind(children, false).to_multiset(),
        ) == children.map_values(|c: DirChildView| entry_of(c)).to_multiset(),
    decreases children.len(),
{
    broadcast use vstd::seq_lib::to_multiset_build, vstd::multiset::group_multiset_axioms;

    let mapped = children.map_values(|c: DirChildView| entry_of(c));
    if children.len() == 0 {
        assert(mapped =~= Seq::<EntryView>::empty());
        assert(Seq::<EntryView>::empty().to_multiset() =~= Multiset::<EntryView>::empty()) by {
            vstd::seq_lib::to_multiset_len(Seq::<EntryView>::empty());
            vstd::multiset::lemma_multiset_empty_len(Seq::<EntryView>::empty().to_multiset());
        }
        assert(entries_of_kind(children, true).to_multiset().add(
            entries_of_kind(children, false).to_multiset(),
        ) =~= mapped.to_multiset());
    } else {
        lemma_kinds_partition(children.drop_last());
        let before = children.drop_last().map_values(|c: DirChildView| entry_of(c));
        let e = entry_of(children.last());
        assert(mapped =~= before.push(e));
        let dirs_before = entries_of_kind(children.drop_last(), true);
        let files_before = entries_of_kind(children.drop_last(), false);
        assert(mapped.to_multiset() =~= before.to_multiset().insert(e));
        let d = dirs_before.to_multiset();
        let f = files_before.to_multiset();
        assert(d.add(f) == before.to_multiset());
        if children.last().is_dir {
            assert(entries_of_kind(children, true) == dirs_before.push(e));
            assert(entries_of_kind(children, true).to_multiset() =~= d.insert(e));
            assert(entries_of_kind(children, false) == files_before);
            assert(d.insert(e).add(f) =~= d.add(f).insert(e));
        } else {
            assert(entries_of_kind(children, false) == files_before.push(e));
            assert(entries_of_kind(children, false).to_multiset() =~= f.insert(e));
            assert(entries_of_kind(children, true) == dirs_before);
            assert(d.add(f.insert(e)) =~= d.add(f).insert(e));
        }
        assert(entries_of_kind(children, true).to_multiset().add(
            entries_of_kind(children, false).to_multiset(),
        ) =~= mapped.to_multiset());
    }
}

/// Behind the parent entry a listing holds exactly the entries of the
/// children, each as often as it was read.
pub proof fn lemma_listing_holds_children(
    dir: Seq<char>,
    parent_created: u64,
    children: Seq<DirChildView>,
)
    ensures
        listing(dir, parent_created, children).skip(1).to_multiset() == children.map_values(
            |c: DirChildView| entry_of(c),
        ).to_multiset(),
{
    broadcast use vstd::seq_lib::lemma_multiset_commutative;

    let dirs = sorted_by_key(entries_of_kind(children, true));
    let files = sorted_by_key(entries_of_kind(children, false));
    lemma_sorted_by_key(entries_of_kind(children, true));
    lemma_sorted_by_key(entries_of_kind(children, false));
    lemma_kinds_partition(children);
    assert(listing(dir, parent_created, children).skip(1) =~= dirs + files);
}

/// Lexicographic order on two character vectors.
pub fn chars_le(a: &Vec<char>, b: &Vec<char>) -> (le: bool)
    ensures
        le == lex_le(a@, b@),
{
    let mut i: usize = 0;
    assert(a@.skip(0) =~= a@ && b@.skip(0) =~= b@);
    while i < a.len() && i < b.len()
        invariant
            i <= a.len(),
            i <= b.len(),
            lex_le(a@, b@) == lex_le(a@.skip(i as int), b@.skip(i as int)),
        decreases a.len() - i,
    {
        let ghost ra = a@.skip(i as int);
        let ghost rb = b@.skip(i as int);
        assert(ra[0] == a@[i as int] && rb[0] == b@[i as int]);
        if a[i] != b[i] {
            return a[i] < b[i];
        }
        assert(ra.drop_first() =~= a@.skip(i + 1));
        assert(rb.drop_first() =~= b@.skip(i + 1));
        i += 1;
    }
    assert(a@.skip(i as int).len() == a@.len() - i);
    assert(b@.skip(i as int).len() == b@.len() - i);
    i == a.len()
}

/// The name shown for a node.
pub fn get_display_name(path: &str, is_dir: bool) -> (name: String)
    ensures
        name@ == display_name(path@, is_dir),
{
    let mut name = base_name_of(path);
    if is_dir {
        name.push('/');
    }
    name
}

/// The lowercase file name by which the node is ordered.
pub fn sort_key_of(path: &str) -> (key: Vec<char>)
    ensures
        key@ == sort_key(path@),
{
    let name = base_name_of(path);
    let lower = to_lowercase(name.as_str());
    chars_of(lower.as_str())
}

fn insert_sorted(list: &mut Vec<Entry>, keys: &mut Vec<Vec<char>>, e: Entry, key: Vec<char>)
    requires
        old(keys).len() == old(list).len(),
        forall|j: int| 0 <= j < old(list).len() ==> old(keys)[j]@ == sort_key(old(list)[j].path@),
        key@ == sort_key(e.path@),
        ordered_by_key(views(old(list)@)),
    ensures
        final(keys).len() == final(list).len(),
        forall|j: int| 0 <= j < final(list).len() ==> final(keys)[j]@ == sort_key(
            final(list)[j].path@,
        ),
        views(final(list)@) == insert_by_key(views(old(list)@), e@),
{
    let ghost s = views(list@);
    let mut low: usize = 0;
    let mut high: usize = list.len();
    while low < high
        invariant
            low <= high <= list.len(),
            keys.len() == list.len(),
            s == views(list@),
            ordered_by_key(s),
            key@ == sort_key(e.path@),
            forall|j: int| 0 <= j < list.len() ==> keys[j]@ == sort_key(list[j].path@),
            forall|j: int| 0 <= j < low ==> lex_le(sort_key(#[trigger] s[j].path), key@),
            forall|j: int| high <= j < s.len() ==> !lex_le(sort_key(#[trigger] s[j].path), key@),
        decreases high - low,
    {
        let mid: usize = low + (high - low) / 2;
        assert(s[mid as int].path == list[mid as int].path@);
        if chars_le(&keys[mid], &key) {
            assert forall|j: int| 0 <= j < mid + 1 implies lex_le(
                sort_key(#[trigger] s[j].path),
                key@,
            ) by {
                if j < mid {
                    lemma_lex_le_transitive(
                        sort_key(s[j].path),
                        sort_key(s[mid as int].path),
                        key@,
                    );
                }
            }
            low = mid + 1;
        } else {
            assert forall|j: int| mid <= j < s.len() implies !lex_le(
                sort_key(#[trigger] s[j].path),
                key@,
            ) by {
                if j > mid && lex_le(sort_key(s[j].path), key@) {
                    lemma_lex_le_transitive(
                        sort_key(s[mid as int].path),
                        sort_key(s[j].path),
                        key@,
                    );
                }
            }
            high = mid;
        }
    }
    proof {
        lemma_insert_position(s, e@, low as int);
        assert(views(list@.insert(low as int, e)) =~= s.insert(low as int, e@));
    }
    list.insert(low, e);
    keys.insert(low, key);
}

/// Orders what was read from the directory `path` into a listing: first
/// the entry for the parent directory, then the directories, then the
/// files, each group by lowercase file name, equal names in the order read.
pub fn read_dir_entries(path: &str, parent_created: u64, children: &Vec<DirChild>) -> (entries:
    Vec<Entry>)
    ensures
        views(entries@) == listing(path@, parent_created, views(children@)),
        entries.len() >= 1,
        entries[0]@ == parent_entry(path@, parent_created),
{
    let mut dirs: Vec<Entry> = Vec::new();
    let mut dir_keys: Vec<Vec<char>> = Vec::new();
    let mut files: Vec<Entry> = Vec::new();
    let mut file_keys: Vec<Vec<char>> = Vec::new();
    let ghost all = views(children@);
    let mut i: usize = 0;
    assert(views(dirs@) =~= Seq::<EntryView>::empty());
    assert(views(files@) =~= Seq::<EntryView>::empty());
    while i < children.len()
        invariant
            i <= children.len(),
            all == views(children@),
            dir_keys.len() == dirs.len(),
            file_keys.len() == files.len(),
            forall|j: int| 0 <= j < dirs.len() ==> dir_keys[j]@ == sort_key(dirs[j].path@),
            forall|j: int| 0 <= j < files.len() ==> file_keys[j]@ == sort_key(files[j].path@),
            views(dirs@) == sorted_by_key(entries_of_kind(all.take(i as int), true)),
            views(files@) == sorted_by_key(entries_of_kind(all.take(i as int), false)),
        decreases children.len() - i,
    {
        let child = &children[i];
        let e = Entry {
            path: child.path.clone(),
            name: get_display_name(child.path.as_str(), child.is_dir),
            is_dir: child.is_dir,
            created: child.created,
            size: child.size,
        };
        let key = sort_key_of(child.path.as_str());
        proof {
            let next = all.take(i + 1);
            let done = all.take(i as int);
            assert(next.drop_last() =~= done);
            assert(next.last() == child@);
            assert(e@ == entry_of(child@));
            let same = entries_of_kind(done, child.is_dir);
            lemma_sorted_by_key(same);
            assert(entries_of_kind(next, child.is_dir) == same.push(e@));
            assert(entries_of_kind(next, !child.is_dir) == entries_of_kind(done, !child.is_dir));
            assert(same.push(e@).drop_last() =~= same);
            assert(sorted_by_key(same.push(e@)) == insert_by_key(sorted_by_key(same), e@));
        }
        if child.is_dir {
            insert_sorted(&mut dirs, &mut dir_keys, e, key);
        } else {
            insert_sorted(&mut files, &mut file_keys, e, key);
        }
        i += 1;
    }
    assert(all.take(i as int) =~= all);
    let mut entries: Vec<Entry> = Vec::new();
    proof {
        reveal_strlit("..");
        reveal_strlit("../");
        assert(".."@ =~= seq!['.', '.']);
        assert("../"@ =~= seq!['.', '.', '/']);
    }
    entries.push(
        Entry {
            path: join(path, ".."),
            name: "../".to_owned(),
            is_dir: true,
            created: parent_created,
            size: 0,
        },
    );
    let ghost head = views(entries@);
    assert(head =~= seq![parent_entry(path@, parent_created)]);
    let ghost dir_views = views(dirs@);
    let ghost file_views = views(files@);
    entries.append(&mut dirs);
    assert(views(entries@) =~= head + dir_views);
    entries.append(&mut files);
    assert(views(entries@) =~= head + dir_views + file_views);
    assert(views(entries@)[0] == entries[0]@);
    entries
}

} // verus!
