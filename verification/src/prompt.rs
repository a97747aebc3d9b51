//! The prompt: a small state machine that collects the text of a search, of
//! a name to create or of a new name, and says what to do when it ends.

use vstd::prelude::*;
use crate::entry::{sort_key, Entry, EntryView};
use crate::listing::sort_key_of;
use crate::history::{Operation, OperationView};
use crate::modes::{opt_action, Mode, ModeAction, ModeActionView};
use crate::paths::{base_name, join, joined, parent, parent_of, paths_equal, same_path};
use crate::seqs::views;
use crate::text::{
    chars_of, contains, contains_chars, ends_with, lemma_contains_self, lowercased, occurs_at,
    to_lowercase,
};

verus! {

/// The key that commits a prompt.
pub const ENTER: char = '\n';

/// The key that removes the last character of the query.
pub const DELETE: char = '\x7f';

/// The second key that removes the last character of a search query.
pub const BACKSPACE: char = '\x08';

/// The shown name of an entry in lowercase: its file name in lowercase,
/// and behind it the `/` that marks a directory.
pub open spec fn search_name(entry: EntryView) -> Seq<char> {
    if entry.is_dir {
        sort_key(entry.path).push('/')
    } else {
        sort_key(entry.path)
    }
}

/// Whether entry `i` matches the query: the query is not empty, the entry
/// is not the parent entry, and its shown name in lowercase contains the
/// query in lowercase.
pub open spec fn is_hit(entries: Seq<EntryView>, query: Seq<char>, i: int) -> bool {
    &&& query.len() > 0
    &&& 0 < i < entries.len()
    &&& contains(search_name(entries[i]), lowercased(query))
}

/// The indices below `n` that match the query, in listing order.
pub open spec fn matching_below(entries: Seq<EntryView>, query: Seq<char>, n: int) -> Seq<usize>
    decreases n,
{
    if n <= 1 {
        Seq::empty()
    } else if is_hit(entries, query, n - 1) {
        matching_below(entries, query, n - 1).push((n - 1) as usize)
    } else {
        matching_below(entries, query, n - 1)
    }
}

/// The indices of the entries that match the query, in listing order. The
/// empty query matches nothing.
pub open spec fn matching(entries: Seq<EntryView>, query: Seq<char>) -> Seq<usize> {
    matching_below(entries, query, entries.len() as int)
}

/// The query without its last character; the empty query stays empty.
pub open spec fn without_last(query: Seq<char>) -> Seq<char> {
    if query.len() == 0 {
        query
    } else {
        query.drop_last()
    }
}

/// The mathematical value of a `Prompt`.
pub struct PromptView {
    pub mode: Mode,
    pub query: Seq<char>,
    pub matches: Seq<usize>,
    pub current_match: usize,
}

impl PromptView {
    /// The cursor points into the match list, or is 0 when the list is
    /// empty; outside a prompt the query is empty.
    pub open spec fn wf(self) -> bool {
        &&& self.matches.len() == 0 ==> self.current_match == 0
        &&& self.matches.len() > 0 ==> self.current_match < self.matches.len()
        &&& self.mode == Mode::Normal ==> self.query.len() == 0
    }

    /// The prompt when it is left: no query, and the given match list with
    /// the cursor on its first match.
    pub open spec fn closed_with(self, matches: Seq<usize>) -> PromptView {
        PromptView { mode: Mode::Normal, query: Seq::empty(), matches, current_match: 0 }
    }

    /// The prompt with another query, the match list untouched.
    pub open spec fn with_query(self, query: Seq<char>) -> PromptView {
        PromptView { query, ..self }
    }

    /// The prompt with another query and the matches of that query.
    pub open spec fn searching(self, query: Seq<char>, entries: Seq<EntryView>) -> PromptView {
        PromptView { query, matches: matching(entries, query), current_match: 0, ..self }
    }
}

/// The prompt at rest: Normal mode, no query, no matches.
pub open spec fn idle_prompt() -> PromptView {
    PromptView { mode: Mode::Normal, query: Seq::empty(), matches: Seq::empty(), current_match: 0 }
}

/// The prompt as `mode` opens it: with the given query, except in Normal
/// mode, which has none, and without matches.
pub open spec fn opened(mode: Mode, query: Seq<char>) -> PromptView {
    PromptView {
        mode,
        query: if mode == Mode::Normal {
            Seq::empty()
        } else {
            query
        },
        matches: Seq::empty(),
        current_match: 0,
    }
}

/// The prompt with the cursor on the next match, the first one following
/// the last; without matches the prompt itself.
pub open spec fn advanced(p: PromptView) -> PromptView {
    if p.matches.len() == 0 {
        p
    } else {
        PromptView {
            current_match: ((p.current_match + 1) % (p.matches.len() as int)) as usize,
            ..p
        }
    }
}

/// The match that the cursor moves to, if there are matches.
pub open spec fn next_hit(p: PromptView) -> Option<usize> {
    if p.matches.len() == 0 {
        None
    } else {
        Some(p.matches[advanced(p).current_match as int])
    }
}

/// A prompt after one key, and what it asks for.
pub struct PromptStep {
    pub next: PromptView,
    pub action: Option<ModeActionView>,
}

/// One key in Search mode. Enter recomputes the matches and leaves the
/// prompt: with matches it selects the first; without, as on an empty
/// query, it asks for nothing. Either delete key shortens the query, any
/// other key is appended; the matches follow the query.
pub open spec fn search_step(p: PromptView, input: char, entries: Seq<EntryView>) -> PromptStep {
    if input == ENTER {
        let found = matching(entries, p.query);
        PromptStep {
            next: p.closed_with(found),
            action: if found.len() > 0 {
                Some(ModeActionView::Select(found[0]))
            } else {
                Some(ModeActionView::Exit)
            },
        }
    } else if input == BACKSPACE || input == DELETE {
        PromptStep { next: p.searching(without_last(p.query), entries), action: None }
    } else {
        PromptStep { next: p.searching(p.query.push(input), entries), action: None }
    }
}

/// One key in Create mode. Enter on an empty query leaves the prompt; on
/// any other query it asks to create the query below the current
/// directory, as a directory when the query ends in `/` and as a file
/// otherwise. The delete key shortens the query, any other key is appended.
pub open spec fn create_step(p: PromptView, input: char, current_path: Seq<char>) -> PromptStep {
    if input == ENTER {
        PromptStep {
            next: p.closed_with(p.matches),
            action: if p.query.len() == 0 {
                Some(ModeActionView::Exit)
            } else {
                Some(
                    ModeActionView::CreateEntry(
                        OperationView::Create {
                            path: joined(current_path, p.query),
                            is_dir: ends_with(p.query, '/'),
                        },
                    ),
                )
            },
        }
    } else if input == DELETE {
        PromptStep { next: p.with_query(without_last(p.query)), action: None }
    } else {
        PromptStep { next: p.with_query(p.query.push(input)), action: None }
    }
}

/// What Enter in Rename mode asks for: nothing on an empty query, for a
/// path without a parent, or when the new path is the old one; otherwise
/// to rename the selected path to the query in the same directory.
pub open spec fn rename_action(query: Seq<char>, selected_path: Seq<char>) -> ModeActionView {
    if query.len() == 0 {
        ModeActionView::Exit
    } else {
        match parent_of(selected_path) {
            None => ModeActionView::Exit,
            Some(dir) => if same_path(selected_path, joined(dir, query)) {
                ModeActionView::Exit
            } else {
                ModeActionView::RenameEntry(
                    OperationView::Rename {
                        old_path: selected_path,
                        new_path: joined(dir, query),
                    },
                )
            },
        }
    }
}

/// Whether the query, put into the directory of the selected path, spells
/// the selected path itself.
pub open spec fn names_itself(query: Seq<char>, selected_path: Seq<char>) -> bool {
    match parent_of(selected_path) {
        Some(dir) => joined(dir, query) == selected_path,
        None => false,
    }
}

/// One key in Rename mode. Enter leaves the prompt and asks for
/// `rename_action`. The delete key shortens the query, any other key is
/// appended.
pub open spec fn rename_step(p: PromptView, input: char, selected_path: Seq<char>) -> PromptStep {
    if input == ENTER {
        PromptStep {
            next: p.closed_with(p.matches),
            action: Some(rename_action(p.query, selected_path)),
        }
    } else if input == DELETE {
        PromptStep { next: p.with_query(without_last(p.query)), action: None }
    } else {
        PromptStep { next: p.with_query(p.query.push(input)), action: None }
    }
}

/// One key in any mode. In Normal mode the prompt takes no keys. In Rename
/// mode without a selected path the prompt asks to be left and stays as it is.
pub open spec fn prompt_step(
    p: PromptView,
    input: char,
    entries: Seq<EntryView>,
    current_path: Seq<char>,
    selected_path: Option<Seq<char>>,
) -> PromptStep {
    match p.mode {
        Mode::Search => search_step(p, input, entries),
        Mode::Create => create_step(p, input, current_path),
        Mode::Rename => match selected_path {
            Some(path) => rename_step(p, input, path),
            None => PromptStep { next: p, action: Some(ModeActionView::Exit) },
        },
        Mode::Normal => PromptStep { next: p, action: None },
    }
}

/// The text that the prompt shows before the query.
pub open spec fn prefix_of(mode: Mode) -> Seq<char> {
    match mode {
        Mode::Search => "Search: "@,
        Mode::Create => "Create: "@,
        Mode::Rename => "Rename: "@,
        Mode::Normal => ""@,
    }
}

/// The indices of the entries whose shown name contains the query, both
/// taken in lowercase. The parent entry never matches, and the empty query
/// matches nothing.
pub fn find_matches(entries: &Vec<Entry>, query: &str) -> (found: Vec<usize>)
    ensures
        found@ == matching(views(entries@), query@),
        query@.len() == 0 ==> found@.len() == 0,
{
    let mut found: Vec<usize> = Vec::new();
    if query.is_empty() {
        proof {
            lemma_empty_query_matches_nothing(views(entries@));
            assert(query@ =~= Seq::<char>::empty());
            assert(found@ =~= Seq::<usize>::empty());
        }
        return found;
    }
    let needle = chars_of(to_lowercase(query).as_str());
    let mut i: usize = 1;
    while i < entries.len()
        invariant
            1 <= i,
            i <= entries.len() || (entries.len() == 0 && i == 1),
            query@.len() > 0,
            needle@ == lowercased(query@),
            found@ == matching_below(views(entries@), query@, i as int),
        decreases entries.len() - i,
    {
        let mut name = sort_key_of(entries[i].path.as_str());
        if entries[i].is_dir {
            name.push('/');
        }
        assert(views(entries@)[i as int] == entries[i as int]@);
        if contains_chars(&name, &needle) {
            found.push(i);
        }
        i += 1;
    }
    assert(found@ == matching(views(entries@), query@)) by {
        if entries.len() == 0 {
            assert(matching_below(views(entries@), query@, 1) =~= matching_below(
                views(entries@),
                query@,
                0,
            ));
        }
    }
    found
}

/// The text prompt of the browser.
#[derive(Debug, PartialEq, Eq)]
pub struct Prompt {
    query: String,
    mode: Mode,
    matches: Vec<usize>,
    current_match: usize,
}

impl View for Prompt {
    type V = PromptView;

    closed spec fn view(&self) -> PromptView {
        PromptView {
            mode: self.mode,
            query: self.query@,
            matches: self.matches@,
            current_match: self.current_match,
        }
    }
}

impl Prompt {
    /// Whether the prompt's invariant holds.
    pub open spec fn wf(&self) -> bool {
        self@.wf()
    }

    /// Whether the prompt's invariant holds, for callers that cannot prove it.
    pub fn is_valid(&self) -> (ok: bool)
        ensures
            ok == self.wf(),
    {
        let cursor_ok = if self.matches.len() == 0 {
            self.current_match == 0
        } else {
            self.current_match < self.matches.len()
        };
        let query_ok = self.mode != Mode::Normal || self.query.as_str().is_empty();
        cursor_ok && query_ok
    }

    /// A prompt in Normal mode, with no query and no matches.
    pub fn new() -> (p: Self)
        ensures
            p.wf(),
            p@ == idle_prompt(),
    {
        Prompt { query: String::new(), mode: Mode::Normal, matches: Vec::new(), current_match: 0 }
    }

    /// Enters `mode` with an empty query and no matches.
    pub fn set_mode(&mut self, mode: Mode)
        ensures
            final(self).wf(),
            final(self)@ == opened(mode, Seq::empty()),
    {
        self.mode = mode;
        self.query.clear();
        self.matches.clear();
        self.current_match = 0;
    }

    /// Enters `mode` with `text` as the query and no matches. Normal mode
    /// has no query: there the text is dropped.
    pub fn set_mode_with_text(&mut self, mode: Mode, text: &str)
        ensures
            final(self).wf(),
            final(self)@ == opened(mode, text@),
    {
        self.mode = mode;
        if mode == Mode::Normal {
            self.query.clear();
        } else {
            self.query = text.to_owned();
        }
        self.matches.clear();
        self.current_match = 0;
    }

    /// Whether a prompt is open.
    pub fn is_active(&self) -> (active: bool)
        ensures
            active == (self@.mode != Mode::Normal),
    {
        self.mode != Mode::Normal
    }

    /// The current mode.
    pub fn get_mode(&self) -> (mode: &Mode)
        ensures
            *mode == self@.mode,
    {
        &self.mode
    }

    /// The text typed so far.
    pub fn get_query(&self) -> (query: &str)
        ensures
            query@ == self@.query,
    {
        self.query.as_str()
    }

    /// The text that the prompt shows before the query.
    pub fn get_prompt_prefix(&self) -> (prefix: &'static str)
        ensures
            prefix@ == prefix_of(self@.mode),
    {
        match self.mode {
            Mode::Search => "Search: ",
            Mode::Create => "Create: ",
            Mode::Rename => "Rename: ",
            Mode::Normal => "",
        }
    }

    /// Whether the entry at `index` is to be shown as a match: only during a
    /// search, and only when the match list holds it.
    pub fn is_match(&self, index: usize) -> (hit: bool)
        ensures
            hit == (self@.mode == Mode::Search && self@.matches.contains(index)),
    {
        if self.mode != Mode::Search {
            return false;
        }
        let mut k: usize = 0;
        while k < self.matches.len()
            invariant
                self.mode == Mode::Search,
                k <= self.matches.len(),
                forall|j: int| 0 <= j < k ==> self.matches@[j] != index,
            decreases self.matches.len() - k,
        {
            if self.matches[k] == index {
                assert(self.matches@[k as int] == index);
                return true;
            }
            k += 1;
        }
        false
    }

    /// The matches that a search has found, in listing order.
    pub fn get_matches(&self) -> (matches: &Vec<usize>)
        ensures
            matches@ == self@.matches,
    {
        &self.matches
    }

    fn pop_query(&mut self)
        ensures
            final(self)@ == old(self)@.with_query(without_last(old(self)@.query)),
    {
        let _ = self.query.pop();
    }

    fn leave(&mut self)
        ensures
            final(self)@ == old(self)@.closed_with(old(self)@.matches),
    {
        self.mode = Mode::Normal;
        self.query.clear();
        self.current_match = 0;
    }

    fn handle_search(&mut self, input: char, entries: &Vec<Entry>) -> (action: Option<ModeAction>)
        ensures
            final(self)@ == search_step(old(self)@, input, views(entries@)).next,
            opt_action(action) == search_step(old(self)@, input, views(entries@)).action,
    {
        if input == ENTER {
            self.update_matches(entries);
            self.leave();
            if self.matches.len() > 0 {
                Some(ModeAction::Select(self.matches[0]))
            } else {
                Some(ModeAction::Exit)
            }
        } else if input == BACKSPACE || input == DELETE {
            self.pop_query();
            self.update_matches(entries);
            None
        } else {
            self.query.push(input);
            self.update_matches(entries);
            None
        }
    }

    fn handle_create(&mut self, input: char, current_path: &str) -> (action: Option<ModeAction>)
        ensures
            final(self)@ == create_step(old(self)@, input, current_path@).next,
            opt_action(action) == create_step(old(self)@, input, current_path@).action,
    {
        if input == ENTER {
            if self.query.as_str().is_empty() {
                self.leave();
                return Some(ModeAction::Exit);
            }
            let path = join(current_path, self.query.as_str());
            let typed = chars_of(self.query.as_str());
            let is_dir = typed[typed.len() - 1] == '/';
            self.leave();
            Some(ModeAction::CreateEntry(Operation::Create { path, is_dir }))
        } else if input == DELETE {
            self.pop_query();
            None
        } else {
            self.query.push(input);
            None
        }
    }

    fn handle_rename(&mut self, input: char, selected_path: &str) -> (action: Option<ModeAction>)
        ensures
            final(self)@ == rename_step(old(self)@, input, selected_path@).next,
            opt_action(action) == rename_step(old(self)@, input, selected_path@).action,
            names_itself(old(self)@.query, selected_path@) ==> !(action matches Some(
                ModeAction::RenameEntry(_),
            )),
    {
        if input == ENTER {
            if self.query.as_str().is_empty() {
                self.leave();
                return Some(ModeAction::Exit);
            }
            let action = match parent(selected_path) {
                None => ModeAction::Exit,
                Some(dir) => {
                    let new_path = join(dir.as_str(), self.query.as_str());
                    if paths_equal(selected_path, new_path.as_str()) {
                        ModeAction::Exit
                    } else {
                        ModeAction::RenameEntry(
                            Operation::Rename { old_path: selected_path.to_owned(), new_path },
                        )
                    }
                },
            };
            self.leave();
            Some(action)
        } else if input == DELETE {
            self.pop_query();
            None
        } else {
            self.query.push(input);
            None
        }
    }

    /// Feeds one key to the prompt and says what the prompt asks for, if
    /// anything. Nothing is created or renamed here: the action names what
    /// the caller is to do. No rename is asked for where the new path is
    /// spelled like the old one.
    pub fn handle_input(
        &mut self,
        input: char,
        entries: &Vec<Entry>,
        current_path: &str,
        selected_path: Option<&str>,
    ) -> (action: Option<ModeAction>)
        requires
            old(self).wf(),
        ensures
            final(self).wf(),
            final(self)@ == prompt_step(
                old(self)@,
                input,
                views(entries@),
                current_path@,
                selected_text(selected_path),
            ).next,
            opt_action(action) == prompt_step(
                old(self)@,
                input,
                views(entries@),
                current_path@,
                selected_text(selected_path),
            ).action,
            selected_path matches Some(path) && names_itself(old(self)@.query, path@) ==> !(
            action matches Some(ModeAction::RenameEntry(_))),
    {
        match self.mode {
            Mode::Search => self.handle_search(input, entries),
            Mode::Create => self.handle_create(input, current_path),
            Mode::Rename => match selected_path {
                Some(path) => self.handle_rename(input, path),
                None => Some(ModeAction::Exit),
            },
            Mode::Normal => None,
        }
    }

    /// Recomputes the match list for the current query and puts the cursor
    /// on its first match. On the empty query the list is empty.
    pub fn update_matches(&mut self, entries: &Vec<Entry>)
        ensures
            final(self)@ == old(self)@.searching(old(self)@.query, views(entries@)),
            old(self)@.query.len() == 0 ==> final(self)@.matches.len() == 0,
    {
        self.matches = find_matches(entries, self.query.as_str());
        self.current_match = 0;
    }

    /// Moves the cursor to the next match, from the last back to the first,
    /// and returns that match; `None` when there are no matches.
    pub fn next_match(&mut self) -> (index: Option<usize>)
        requires
            old(self).wf(),
        ensures
            final(self).wf(),
            final(self)@ == advanced(old(self)@),
            index == next_hit(old(self)@),
    {
        if self.matches.len() == 0 {
            return None;
        }
        proof {
            let c = self.current_match as int;
            let n = self.matches.len() as int;
            assert((c + 1) % n == if c + 1 == n { 0 } else { c + 1 }) by (nonlinear_arith)
                requires
                    0 <= c < n,
            ;
        }
        self.current_match = if self.current_match + 1 == self.matches.len() {
            0
        } else {
            self.current_match + 1
        };
        Some(self.matches[self.current_match])
    }
}

/// The match list below `n` holds exactly the indices below `n` that match,
/// each once, in increasing order.
pub proof fn lemma_matching_below(entries: Seq<EntryView>, query: Seq<char>, n: int)
    requires
        n <= entries.len(),
        entries.len() <= usize::MAX,
    ensures
        forall|k: int|
            0 <= k < matching_below(entries, query, n).len() ==> is_hit(
                entries,
                query,
                (#[trigger] matching_below(entries, query, n)[k]) as int,
            ) && matching_below(entries, query, n)[k] < n,
        forall|k: int, l: int|
            0 <= k < l < matching_below(entries, query, n).len() ==> (#[trigger] matching_below(
                entries,
                query,
                n,
            )[k]) < (#[trigger] matching_below(entries, query, n)[l]),
        forall|i: int|
            0 <= i < n && is_hit(entries, query, i) ==> matching_below(entries, query, n).contains(
                i as usize,
            ),
    decreases n,
{
    if n > 1 {
        lemma_matching_below(entries, query, n - 1);
        let rest = matching_below(entries, query, n - 1);
        let all = matching_below(entries, query, n);
        if is_hit(entries, query, n - 1) {
            assert(all == rest.push((n - 1) as usize));
            assert forall|i: int| 0 <= i < n && is_hit(entries, query, i) implies all.contains(
                i as usize,
            ) by {
                if i == n - 1 {
                    assert(all[all.len() - 1] == i as usize);
                } else {
                    let k = choose|k: int| 0 <= k < rest.len() && rest[k] == i as usize;
                    assert(all[k] == i as usize);
                }
            }
        }
    }
}

/// The match list of a search holds exactly the indices of the entries
/// that match, each once, in listing order.
pub proof fn lemma_matching(entries: Seq<EntryView>, query: Seq<char>)
    requires
        entries.len() <= usize::MAX,
    ensures
        forall|k: int|
            0 <= k < matching(entries, query).len() ==> is_hit(
                entries,
                query,
                (#[trigger] matching(entries, query)[k]) as int,
            ),
        forall|k: int, l: int|
            0 <= k < l < matching(entries, query).len() ==> (#[trigger] matching(entries, query)[k])
                < (#[trigger] matching(entries, query)[l]),
        forall|i: int|
            is_hit(entries, query, i) ==> matching(entries, query).contains(i as usize),
{
    lemma_matching_below(entries, query, entries.len() as int);
}

/// The empty query finds nothing, whatever the listing holds.
pub proof fn lemma_empty_query_matches_nothing(entries: Seq<EntryView>)
    ensures
        matching(entries, Seq::<char>::empty()) == Seq::<usize>::empty(),
{
    lemma_empty_query_below(entries, entries.len() as int);
}

proof fn lemma_empty_query_below(entries: Seq<EntryView>, n: int)
    ensures
        matching_below(entries, Seq::<char>::empty(), n) == Seq::<usize>::empty(),
    decreases n,
{
    if n > 1 {
        lemma_empty_query_below(entries, n - 1);
    }
}

/// A query that is the whole file name of an entry other than the parent
/// entry, in whatever letter case, finds that entry: a file as well as a
/// directory.
pub proof fn lemma_full_name_matches(entries: Seq<EntryView>, query: Seq<char>, i: int)
    requires
        0 < i < entries.len(),
        entries.len() <= usize::MAX,
        query.len() > 0,
        lowercased(query) == lowercased(base_name(entries[i].path)),
    ensures
        matching(entries, query).contains(i as usize),
{
    let key = sort_key(entries[i].path);
    lemma_contains_self(key);
    if entries[i].is_dir {
        assert(key.push('/').subrange(0, key.len() as int) =~= key);
        assert(occurs_at(key.push('/'), key, 0));
    }
    lemma_matching(entries, query);
    assert(is_hit(entries, query, i));
}

/// The characters of an optional path.
pub open spec fn selected_text(path: Option<&str>) -> Option<Seq<char>> {
    match path {
        Some(p) => Some(p@),
        None => None,
    }
}

} // verus!
