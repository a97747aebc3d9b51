//! The viewport: which rows of the listing are on screen.

use vstd::prelude::*;

verus! {

/// Rows of the terminal that never show entries: the prompt line and the
/// line below the listing.
pub const RESERVED_ROWS: u16 = 2;

/// The number of entry rows that fit in a terminal of the given height.
pub open spec fn rows_for_height(height: u16) -> nat {
    if height >= RESERVED_ROWS {
        (height - RESERVED_ROWS) as nat
    } else {
        0
    }
}

/// The greatest offset at which a window of `size` rows still ends inside a
/// listing of `total` entries.
pub open spec fn max_start(total: nat, size: nat) -> nat {
    if total >= size {
        (total - size) as nat
    } else {
        0
    }
}

/// The window offset after the window was moved, if needed, to show
/// `selected`, before it is clamped to the listing.
pub open spec fn recentered(start: nat, size: nat, selected: nat) -> nat {
    if selected >= start + size {
        (selected + 1 - size) as nat
    } else if selected < start {
        selected
    } else {
        start
    }
}

/// The window offset that `update_viewport` leaves.
pub open spec fn updated_start(start: nat, size: nat, selected: nat, total: nat) -> nat {
    let moved = recentered(start, size, selected);
    if moved > max_start(total, size) {
        max_start(total, size)
    } else {
        moved
    }
}

/// The visible window of the listing.
#[derive(Debug, PartialEq, Eq)]
pub struct Renderer {
    pub viewport_start: usize,
    pub viewport_size: usize,
}

impl Renderer {
    /// A window at the top of the listing, sized for a terminal of `height` rows.
    pub fn new(height: u16) -> (r: Self)
        ensures
            r.viewport_start == 0,
            r.viewport_size == rows_for_height(height),
    {
        let size: u16 = if height >= RESERVED_ROWS { height - RESERVED_ROWS } else { 0 };
        Renderer { viewport_start: 0, viewport_size: size as usize }
    }

    /// Resizes the window for a terminal of `height` rows and moves it so that
    /// `selected` is visible, then clamps it to the listing.
    pub fn update_viewport(&mut self, selected: usize, total_entries: usize, height: u16)
        ensures
            *final(self) == updated(*old(self), selected, total_entries, height),
            final(self).viewport_size == rows_for_height(height),
            final(self).viewport_start == updated_start(
                old(self).viewport_start as nat,
                rows_for_height(height),
                selected as nat,
                total_entries as nat,
            ),
            selected < total_entries && height > RESERVED_ROWS ==> final(self).viewport_start
                <= selected < final(self).viewport_start + final(self).viewport_size,
            total_entries <= final(self).viewport_size ==> final(self).viewport_start == 0,
    {
        let size16: u16 = if height >= RESERVED_ROWS { height - RESERVED_ROWS } else { 0 };
        let size: usize = size16 as usize;
        self.viewport_size = size;
        if selected >= self.viewport_start && selected - self.viewport_start >= size {
            if size >= 1 {
                self.viewport_start = selected - (size - 1);
            } else if selected < total_entries {
                self.viewport_start = selected + 1;
            } else {
                self.viewport_start = total_entries;
            }
        } else if selected < self.viewport_start {
            self.viewport_start = selected;
        }
        let limit: usize = if total_entries >= size { total_entries - size } else { 0 };
        if self.viewport_start > limit {
            self.viewport_start = limit;
        }
    }

    /// The index of the first visible row.
    pub fn get_viewport_start(&self) -> (start: usize)
        ensures
            start == self.viewport_start,
    {
        self.viewport_start
    }

    /// The number of rows that the window shows.
    pub fn get_viewport_size(&self) -> (size: usize)
        ensures
            size == self.viewport_size,
    {
        self.viewport_size
    }

    /// The index behind the last visible row of a listing of `total_entries`.
    pub fn get_viewport_end(&self, total_entries: usize) -> (end: usize)
        ensures
            end == visible_end(*self, total_entries),
    {
        if self.viewport_start < total_entries && self.viewport_size < total_entries
            - self.viewport_start {
            self.viewport_start + self.viewport_size
        } else {
            total_entries
        }
    }

    /// Moves the window back to the top, for a new listing.
    pub fn reset_viewport(&mut self)
        ensures
            final(self).viewport_start == 0,
            final(self).viewport_size == old(self).viewport_size,
    {
        self.viewport_start = 0;
    }

    /// Moves the window up by one row, unless it is at the top.
    pub fn scroll_up(&mut self)
        ensures
            *final(self) == scrolled_up(*old(self)),
    {
        if self.viewport_start > 0 {
            self.viewport_start = self.viewport_start - 1;
        }
    }

    /// Moves the window down by one row, unless its end has reached the
    /// end of the listing.
    pub fn scroll_down(&mut self, total_entries: usize)
        ensures
            *final(self) == scrolled_down(*old(self), total_entries),
    {
        let limit: usize = if total_entries >= self.viewport_size {
            total_entries - self.viewport_size
        } else {
            0
        };
        if self.viewport_start < limit {
            self.viewport_start = self.viewport_start + 1;
        }
    }
}

/// The index behind the last row that the window shows of a listing of
/// `total` entries.
pub open spec fn visible_end(r: Renderer, total: usize) -> usize {
    if r.viewport_start + r.viewport_size < total {
        (r.viewport_start + r.viewport_size) as usize
    } else {
        total
    }
}

/// The terminal column in which the first fragment of a row starts.
pub const FIRST_COLUMN: u16 = 2;

/// The column at which fragment `index` of a row starts: each fragment
/// stands one column behind the full width of the one before.
pub open spec fn column_offset(widths: Seq<usize>, index: int) -> int
    decreases index,
{
    if index <= 0 {
        FIRST_COLUMN as int
    } else {
        column_offset(widths, index - 1) + widths[index - 1] + 1
    }
}

/// The column at which each fragment of a row starts, or `None` where one
/// of them lies beyond the last column a terminal can have.
pub fn column_positions(widths: &Vec<usize>) -> (positions: Option<Vec<u16>>)
    ensures
        positions.is_some() == (forall|i: int|
            0 <= i < widths.len() ==> column_offset(widths@, i) <= u16::MAX),
        positions matches Some(list) ==> list.len() == widths.len() && forall|i: int|
            0 <= i < list.len() ==> list[i] == column_offset(widths@, i),
{
    let mut list: Vec<u16> = Vec::new();
    let mut position: u16 = FIRST_COLUMN;
    let mut i: usize = 0;
    while i < widths.len()
        invariant
            i <= widths.len(),
            list.len() == i,
            position == column_offset(widths@, i as int),
            forall|k: int| 0 <= k < i ==> list[k] == column_offset(widths@, k),
        decreases widths.len() - i,
    {
        list.push(position);
        i += 1;
        if i < widths.len() {
            let width = widths[i - 1];
            if width >= 0xffff || position as usize + width + 1 > 0xffff {
                assert(column_offset(widths@, i as int) > u16::MAX);
                return None;
            }
            position = (position as usize + width + 1) as u16;
        } else {
            return Some(list);
        }
    }
    Some(list)
}

/// The window one row further up, or the same window at the top.
pub open spec fn scrolled_up(r: Renderer) -> Renderer {
    if r.viewport_start > 0 {
        Renderer { viewport_start: (r.viewport_start - 1) as usize, ..r }
    } else {
        r
    }
}

/// The window one row further down, or the same window where its end has
/// reached the end of the listing.
pub open spec fn scrolled_down(r: Renderer, total: usize) -> Renderer {
    if r.viewport_start < max_start(total as nat, r.viewport_size as nat) {
        Renderer { viewport_start: (r.viewport_start + 1) as usize, ..r }
    } else {
        r
    }
}

/// The window after `update_viewport`.
pub open spec fn updated(r: Renderer, selected: usize, total: usize, height: u16) -> Renderer {
    Renderer {
        viewport_start: updated_start(
            r.viewport_start as nat,
            rows_for_height(height),
            selected as nat,
            total as nat,
        ) as usize,
        viewport_size: rows_for_height(height) as usize,
    }
}

/// Whether the window shows the row `selected`.
pub open spec fn shows(r: Renderer, selected: usize) -> bool {
    r.viewport_start <= selected < r.viewport_start + r.viewport_size
}

/// After an update the window shows the selection, whenever the selection
/// lies in the listing and the terminal has a row for entries; a listing
/// that fits into the window is shown from its top, and a longer one
/// fills the window to its end.
pub proof fn lemma_update_shows_selection(r: Renderer, selected: usize, total: usize, height: u16)
    ensures
        selected < total && height > RESERVED_ROWS ==> shows(
            updated(r, selected, total, height),
            selected,
        ),
        total <= rows_for_height(height) ==> updated(r, selected, total, height).viewport_start
            == 0,
        total >= rows_for_height(height) ==> updated(r, selected, total, height).viewport_start
            + rows_for_height(height) <= total,
{
}

} // verus!
