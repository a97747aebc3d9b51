//! A search on its own: a query, the indices it matches, and a cursor.

use vstd::prelude::*;
use crate::entry::Entry;
use crate::prompt::{find_matches, matching, without_last, DELETE, ENTER};
use crate::seqs::views;

verus! {

/// The state of a search over a listing.
#[derive(Debug, PartialEq, Eq)]
pub struct SearchState {
    pub query: String,
    pub mode: bool,
    pub matches: Vec<usize>,
    pub current_match: usize,
}

impl SearchState {
    /// The cursor points into the match list, or is 0 when the list is empty.
    pub open spec fn wf(&self) -> bool {
        &&& self.matches.len() == 0 ==> self.current_match == 0
        &&& self.matches.len() > 0 ==> self.current_match < self.matches.len()
    }

    /// An idle search with no query and no matches.
    pub fn new() -> (s: Self)
        ensures
            s.wf(),
            s.query@ == Seq::<char>::empty(),
            !s.mode,
            s.matches@ == Seq::<usize>::empty(),
            s.current_match == 0,
    {
        SearchState { query: String::new(), mode: false, matches: Vec::new(), current_match: 0 }
    }

    /// Ends the search and forgets the query and the matches.
    pub fn reset(&mut self)
        ensures
            final(self).wf(),
            final(self).query@ == Seq::<char>::empty(),
            !final(self).mode,
            final(self).matches@ == Seq::<usize>::empty(),
            final(self).current_match == 0,
    {
        self.mode = false;
        self.query.clear();
        self.matches.clear();
        self.current_match = 0;
    }

    /// Recomputes the match list for the current query and puts the cursor
    /// on its first match. On the empty query the list is empty.
    pub fn update_matches(&mut self, entries: &Vec<Entry>)
        ensures
            final(self).wf(),
            final(self).matches@ == matching(views(entries@), old(self).query@),
            old(self).query@.len() == 0 ==> final(self).matches@.len() == 0,
            final(self).current_match == 0,
            final(self).query@ == old(self).query@,
            final(self).mode == old(self).mode,
    {
        self.matches = find_matches(entries, self.query.as_str());
        self.current_match = 0;
    }

    /// Moves the cursor to the next match, from the last back to the first,
    /// and returns that match; `None` when there are no matches.
    pub fn next_match(&mut self) -> (index: Option<usize>)
        requires
            old(self).wf(),
        ensures
            final(self).wf(),
            final(self).query@ == old(self).query@,
            final(self).mode == old(self).mode,
            final(self).matches@ == old(self).matches@,
            old(self).matches.len() == 0 ==> index.is_none() && final(self).current_match == 0,
            old(self).matches.len() > 0 ==> final(self).current_match == (old(self).current_match
                + 1) % (old(self).matches.len() as int) && index == Some(
                old(self).matches@[final(self).current_match as int],
            ),
    {
        if self.matches.len() == 0 {
            return None;
        }
        proof {
            let c = self.current_match as int;
            let n = self.matches.len() as int;
            assert((c + 1) % n == if c + 1 == n { 0 } else { c + 1 }) by (nonlinear_arith)
                requires
                    0 <= c < n,
            ;
        }
        self.current_match = if self.current_match + 1 == self.matches.len() {
            0
        } else {
            self.current_match + 1
        };
        Some(self.matches[self.current_match])
    }

    /// Starts a search with an empty query and no matches.
    pub fn enter_search_mode(&mut self)
        ensures
            final(self).wf(),
            final(self).query@ == Seq::<char>::empty(),
            final(self).mode,
            final(self).matches@ == Seq::<usize>::empty(),
            final(self).current_match == 0,
    {
        self.mode = true;
        self.query.clear();
        self.matches.clear();
        self.current_match = 0;
    }

    /// Feeds one key to the search. Enter ends it, computes the matches of
    /// the query and returns the first, if there is one. The delete key
    /// shortens the query, any other key is appended; both return `None`
    /// and leave the matches as they were.
    pub fn handle_input(&mut self, c: char, entries: &Vec<Entry>) -> (index: Option<usize>)
        requires
            old(self).wf(),
        ensures
            final(self).wf(),
            c == ENTER ==> {
                &&& !final(self).mode
                &&& final(self).query@ == old(self).query@
                &&& final(self).matches@ == matching(views(entries@), old(self).query@)
                &&& final(self).current_match == 0
                &&& index == if final(self).matches.len() > 0 {
                    Some(final(self).matches@[0])
                } else {
                    None
                }
            },
            c != ENTER ==> {
                &&& index.is_none()
                &&& final(self).mode == old(self).mode
                &&& final(self).matches@ == old(self).matches@
                &&& final(self).current_match == old(self).current_match
                &&& final(self).query@ == if c == DELETE {
                    without_last(old(self).query@)
                } else {
                    old(self).query@.push(c)
                }
            },
    {
        if c == ENTER {
            self.mode = false;
            self.update_matches(entries);
            if self.matches.len() > 0 {
                return Some(self.matches[0]);
            }
        } else if c == DELETE {
            let _ = self.query.pop();
        } else {
            self.query.push(c);
        }
        None
    }
}

} // verus!
