//! The state of the browser: the listing, the selection, the prompt, the
//! journal and the display cache.

use vstd::prelude::*;
use crate::config::Config;
use crate::display::DisplayModule;
use crate::entry::{parent_label, DirChild, Entry, EntryView};
use crate::history::{all_wf, History, OperationView};
use crate::listing::{listing, read_dir_entries};
use crate::prompt::{idle_prompt, Prompt, PromptView};
use crate::seqs::views;
use crate::text::text_width;

verus! {

/// The width of the fragment in row `row` and column `column`; a row that
/// has no such column counts as empty there.
pub open spec fn cell_width(rows: Seq<Seq<Seq<char>>>, row: int, column: int) -> usize {
    if 0 <= row < rows.len() && 0 <= column < rows[row].len() {
        text_width(rows[row][column])
    } else {
        0
    }
}

/// The greatest width in `column` over the rows from 1 to `upto - 1`: the
/// row of the parent entry does not count.
pub open spec fn column_max(rows: Seq<Seq<Seq<char>>>, column: int, upto: int) -> usize
    decreases upto,
{
    if upto <= 1 {
        0
    } else {
        let before = column_max(rows, column, upto - 1);
        let here = cell_width(rows, upto - 1, column);
        if here > before {
            here
        } else {
            before
        }
    }
}

/// The width of each of the first `columns` columns.
pub open spec fn column_widths(rows: Seq<Seq<Seq<char>>>, columns: nat) -> Seq<usize> {
    Seq::new(columns, |c: int| column_max(rows, c, rows.len() as int))
}

/// A column is as wide as its widest fragment below the parent row: no
/// such fragment is wider, and unless the width is 0 one is that wide.
pub proof fn lemma_column_max(rows: Seq<Seq<Seq<char>>>, column: int, upto: int)
    requires
        upto <= rows.len(),
    ensures
        forall|r: int| 1 <= r < upto ==> cell_width(rows, r, column) <= column_max(rows, column, upto),
        column_max(rows, column, upto) == 0 || exists|r: int|
            1 <= r < upto && cell_width(rows, r, column) == column_max(rows, column, upto),
    decreases upto,
{
    if upto > 1 {
        lemma_column_max(rows, column, upto - 1);
        let before = column_max(rows, column, upto - 1);
        let here = cell_width(rows, upto - 1, column);
        if here > before {
            assert(cell_width(rows, upto - 1, column) == column_max(rows, column, upto));
        } else if before != 0 {
            let r = choose|r: int|
                1 <= r < upto - 1 && cell_width(rows, r, column) == column_max(
                    rows,
                    column,
                    upto - 1,
                );
            assert(cell_width(rows, r, column) == column_max(rows, column, upto));
        }
    }
}

/// The texts of the cached rows.
pub open spec fn rows_view(cache: Seq<Vec<String>>) -> Seq<Seq<Seq<char>>> {
    Seq::new(cache.len(), |r: int| views(cache[r]@))
}

/// The width of each of the first `columns` columns of the rows: the
/// greatest byte length of a fragment in the column, the first row left out.
pub fn column_widths_of(rows: &Vec<Vec<String>>, columns: usize) -> (widths: Vec<usize>)
    ensures
        widths@ == column_widths(rows_view(rows@), columns as nat),
{
    let ghost texts = rows_view(rows@);
    let mut widths: Vec<usize> = Vec::new();
    let mut c: usize = 0;
    while c < columns
        invariant
            c <= columns,
            widths.len() == c,
            forall|k: int| 0 <= k < c ==> widths[k] == 0,
        decreases columns - c,
    {
        widths.push(0);
        c += 1;
    }
    let mut r: usize = 1;
    while r < rows.len()
        invariant
            1 <= r,
            r <= rows.len() || (rows.len() == 0 && r == 1),
            texts == rows_view(rows@),
            widths.len() == columns,
            forall|k: int| 0 <= k < columns ==> widths[k] == column_max(texts, k, r as int),
        decreases rows.len() - r,
    {
        let row = &rows[r];
        let mut k: usize = 0;
        while k < columns
            invariant
                k <= columns,
                1 <= r < rows.len(),
                row == rows[r as int],
                texts == rows_view(rows@),
                widths.len() == columns,
                forall|j: int| 0 <= j < k ==> widths[j] == column_max(texts, j, r + 1),
                forall|j: int| k <= j < columns ==> widths[j] == column_max(texts, j, r as int),
            decreases columns - k,
        {
            if k < row.len() {
                let w = row[k].as_str().len();
                assert(texts[r as int] == views(row@));
                assert(texts[r as int][k as int] == row[k as int]@);
                assert(cell_width(texts, r as int, k as int) == w);
                if w > widths[k] {
                    widths[k] = w;
                }
            }
            k += 1;
        }
        r += 1;
    }
    assert(widths@ =~= column_widths(texts, columns as nat)) by {
        assert forall|k: int| 0 <= k < columns implies widths[k] == column_max(
            texts,
            k,
            texts.len() as int,
        ) by {
            if rows.len() == 0 {
                assert(column_max(texts, k, 0) == column_max(texts, k, r as int));
            }
        }
    }
    widths
}

/// The state of the browser.
pub struct AppState<M: DisplayModule> {
    pub current_path: String,
    pub entries: Vec<Entry>,
    pub selected: usize,
    pub prompt: Prompt,
    pub config: Config,
    pub delete_mode: Option<usize>,
    pub history: History,
    pub display_modules: Vec<M>,
    pub modules_cache: Vec<Vec<String>>,
    pub max_widths: Vec<usize>,
}

/// The mathematical value of an `AppState`: everything but the display
/// modules themselves, of which it keeps the number.
pub struct AppStateView {
    pub current_path: Seq<char>,
    pub entries: Seq<EntryView>,
    pub selected: usize,
    pub prompt: PromptView,
    pub config: Config,
    pub delete_mode: Option<usize>,
    pub operations: Seq<OperationView>,
    pub history_index: usize,
    pub columns: nat,
    pub rows: Seq<Seq<Seq<char>>>,
    pub max_widths: Seq<usize>,
}

impl AppStateView {
    /// The listing starts with the entry for the parent directory, the
    /// selection lies in the listing, the journal's cursor lies in the
    /// journal, each recorded operation is well-formed, and the display
    /// cache fits the listing:
    /// one row for each entry, one fragment for each module, and the
    /// widths of the columns over all rows but the first.
    pub open spec fn wf(self) -> bool {
        &&& 1 <= self.entries.len() <= usize::MAX
        &&& is_parent_entry(self.entries[0])
        &&& self.selected < self.entries.len()
        &&& self.prompt.wf()
        &&& self.history_index <= self.operations.len()
        &&& all_wf(self.operations)
        &&& self.rows.len() == self.entries.len()
        &&& forall|r: int| 0 <= r < self.rows.len() ==> (#[trigger] self.rows[r]).len() == self.columns
        &&& self.max_widths == column_widths(self.rows, self.columns)
    }

    /// The state with the display cache of `other`.
    pub open spec fn with_cache_of(self, other: AppStateView) -> AppStateView {
        AppStateView { rows: other.rows, max_widths: other.max_widths, ..self }
    }
}

impl<M: DisplayModule> View for AppState<M> {
    type V = AppStateView;

    open spec fn view(&self) -> AppStateView {
        AppStateView {
            current_path: self.current_path@,
            entries: views(self.entries@),
            selected: self.selected,
            prompt: self.prompt@,
            config: self.config,
            delete_mode: self.delete_mode,
            operations: self.history.ops(),
            history_index: self.history.index,
            columns: self.display_modules.len() as nat,
            rows: rows_view(self.modules_cache@),
            max_widths: self.max_widths@,
        }
    }
}

/// Whether the entry is one that leads to a parent directory: a
/// directory shown as `../`.
pub open spec fn is_parent_entry(entry: EntryView) -> bool {
    entry.is_dir && entry.name == parent_label()
}

/// The index `i` where it lies in a listing of `len` entries, and the last
/// index where it does not.
pub open spec fn clamped(i: usize, len: nat) -> usize {
    if i < len {
        i
    } else {
        (len - 1) as usize
    }
}

impl<M: DisplayModule> AppState<M> {
    /// Whether the state's invariant holds.
    pub open spec fn wf(&self) -> bool {
        self@.wf()
    }

    /// Whether each fragment of the display cache is one that its module
    /// gives for its entry.
    pub open spec fn rendered(&self) -> bool {
        forall|r: int, c: int|
            0 <= r < self.entries.len() && 0 <= c < self.display_modules.len()
                ==> #[trigger] self.cell_rendered(r, c)
    }

    /// Whether the cache has a fragment in row `r` and column `c`, and it
    /// is one that module `c` gives for entry `r`.
    pub open spec fn cell_rendered(&self, r: int, c: int) -> bool {
        &&& 0 <= r < self.modules_cache.len()
        &&& 0 <= c < self.modules_cache[r].len()
        &&& self.display_modules[c].renders(self.entries[r]@, self.modules_cache[r][c]@)
    }

    /// Whether the state's invariant holds, for callers that cannot prove it.
    pub fn is_valid(&self) -> (ok: bool)
        ensures
            ok == self.wf(),
    {
        if self.entries.len() < 1 || self.selected >= self.entries.len() {
            return false;
        }
        proof {
            reveal_strlit("../");
            assert("../"@ =~= parent_label());
            assert(views(self.entries@)[0] == self.entries[0]@);
        }
        if !self.entries[0].is_dir || self.entries[0].name != "../".to_owned() {
            return false;
        }
        if !self.prompt.is_valid() || !self.history.is_valid() {
            return false;
        }
        if self.modules_cache.len() != self.entries.len() {
            return false;
        }
        let ghost texts = rows_view(self.modules_cache@);
        let mut r: usize = 0;
        while r < self.modules_cache.len()
            invariant
                r <= self.modules_cache.len(),
                texts == rows_view(self.modules_cache@),
                forall|k: int| 0 <= k < r ==> (#[trigger] texts[k]).len() == self.display_modules.len(),
            decreases self.modules_cache.len() - r,
        {
            assert(texts[r as int] == views(self.modules_cache[r as int]@));
            if self.modules_cache[r].len() != self.display_modules.len() {
                return false;
            }
            r += 1;
        }
        let widths = column_widths_of(&self.modules_cache, self.display_modules.len());
        if widths.len() != self.max_widths.len() {
            assert(widths@.len() != self.max_widths@.len());
            return false;
        }
        let mut c: usize = 0;
        while c < widths.len()
            invariant
                c <= widths.len(),
                widths.len() == self.max_widths.len(),
                widths@ == column_widths(
                    rows_view(self.modules_cache@),
                    self.display_modules.len() as nat,
                ),
                forall|k: int| 0 <= k < c ==> widths[k] == self.max_widths[k],
            decreases widths.len() - c,
        {
            if widths[c] != self.max_widths[c] {
                assert(widths@[c as int] != self.max_widths@[c as int]);
                return false;
            }
            c += 1;
        }
        assert(widths@ =~= self.max_widths@);
        true
    }

    /// The state at the start: the listing of the current directory with
    /// the first entry behind the parent entry selected, or the parent
    /// entry where there is no other; no prompt, nothing to delete, an
    /// empty journal, and the display cache of the listing.
    pub fn new(
        config: Config,
        display_modules: Vec<M>,
        current_path: String,
        parent_created: u64,
        children: &Vec<DirChild>,
    ) -> (state: Self)
        ensures
            state.wf(),
            state.rendered(),
            state@.current_path == current_path@,
            state@.entries == listing(current_path@, parent_created, views(children@)),
            state@.selected == clamped(1, state@.entries.len()),
            state@.prompt == idle_prompt(),
            state@.config == config,
            state@.delete_mode.is_none(),
            state@.operations == Seq::<OperationView>::empty(),
            state@.history_index == 0,
            state.display_modules == display_modules,
    {
        let entries = read_dir_entries(current_path.as_str(), parent_created, children);
        let selected: usize = if entries.len() > 1 {
            1
        } else {
            0
        };
        let mut state = AppState {
            current_path,
            entries,
            selected,
            prompt: Prompt::new(),
            config,
            delete_mode: None,
            history: History::new(),
            display_modules,
            modules_cache: Vec::new(),
            max_widths: Vec::new(),
        };
        state.recompute_display_data();
        state
    }

    /// Rebuilds the display cache from the listing: for each entry the
    /// fragment of each module, and for each column its width.
    pub fn recompute_display_data(&mut self)
        ensures
            final(self)@ == old(self)@.with_cache_of(final(self)@),
            final(self).display_modules == old(self).display_modules,
            final(self).entries == old(self).entries,
            final(self).rendered(),
            final(self)@.rows.len() == final(self)@.entries.len(),
            forall|r: int|
                0 <= r < final(self)@.rows.len() ==> (#[trigger] final(self)@.rows[r]).len()
                    == final(self)@.columns,
            final(self)@.max_widths == column_widths(final(self)@.rows, final(self)@.columns),
    {
        let mut cache: Vec<Vec<String>> = Vec::new();
        let mut i: usize = 0;
        while i < self.entries.len()
            invariant
                i <= self.entries.len(),
                cache.len() == i,
                forall|r: int| 0 <= r < i ==> (#[trigger] cache[r]).len() == self.display_modules.len(),
                forall|r: int, c: int|
                    0 <= r < i && 0 <= c < self.display_modules.len() ==> (
                    #[trigger] self.display_modules[c].renders(self.entries[r]@, cache[r][c]@)),
                *self == *old(self),
            decreases self.entries.len() - i,
        {
            let mut parts: Vec<String> = Vec::new();
            let mut m: usize = 0;
            while m < self.display_modules.len()
                invariant
                    m <= self.display_modules.len(),
                    parts.len() == m,
                    i < self.entries.len(),
                    forall|c: int|
                        0 <= c < m ==> (#[trigger] self.display_modules[c].renders(
                            self.entries[i as int]@,
                            parts[c]@,
                        )),
                    *self == *old(self),
                decreases self.display_modules.len() - m,
            {
                parts.push(self.display_modules[m].render(&self.entries[i]));
                m += 1;
            }
            cache.push(parts);
            i += 1;
        }
        self.max_widths = column_widths_of(&cache, self.display_modules.len());
        self.modules_cache = cache;
        proof {
            let texts = rows_view(self.modules_cache@);
            assert forall|r: int| 0 <= r < texts.len() implies (#[trigger] texts[r]).len()
                == self.display_modules.len() by {
                assert(texts[r] == views(self.modules_cache[r]@));
            }
        }
    }

    /// Replaces the listing, puts the selection on `selected` or on the
    /// last entry where the listing is shorter, and rebuilds the display cache.
    pub fn replace_entries(&mut self, entries: Vec<Entry>, selected: usize)
        requires
            old(self).wf(),
            entries.len() >= 1,
            is_parent_entry(entries[0]@),
        ensures
            final(self).wf(),
            final(self).rendered(),
            final(self)@ == (AppStateView {
                entries: views(entries@),
                selected: clamped(selected, entries.len() as nat),
                ..old(self)@
            }).with_cache_of(final(self)@),
            final(self).display_modules == old(self).display_modules,
    {
        self.selected = if selected < entries.len() {
            selected
        } else {
            entries.len() - 1
        };
        self.entries = entries;
        self.recompute_display_data();
    }
}

/// With the browser's own modules the display cache holds, for each entry
/// and each module, exactly the fragment of that module for that entry.
pub proof fn lemma_builtin_cache(state: AppState<crate::display::Builtin>, r: int, c: int)
    requires
        state.wf(),
        state.rendered(),
        0 <= r < state.entries.len(),
        0 <= c < state.display_modules.len(),
    ensures
        state@.rows[r][c] == crate::display::builtin_fragment(
            state.display_modules[c],
            state@.entries[r],
        ),
{
    assert(state.cell_rendered(r, c));
    assert(state@.rows[r] == views(state.modules_cache[r]@));
}

} // verus!
