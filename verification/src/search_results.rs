use vstd::prelude::*;
use vstd::arithmetic::div_mod::{
    lemma_add_mod_noop,
    lemma_mod_bound,
    lemma_small_mod,
    lemma_sub_mod_noop,
    lemma_sub_mod_noop_right,
    lemma_add_mod_noop_right,
};
use crate::summary::CrateSummary;

verus! {

/// The table of search results: the crates shown, the selected row, and the
/// state of the scrollbar beside the table.
pub struct SearchResults {
    /// The crates listed in the table, in display order.
    pub crates: Vec<CrateSummary>,
    /// The selected row, if any. It may point past the end of `crates` after
    /// the list shrinks; such a selection selects no crate.
    pub selected: Option<usize>,
    /// The content length the scrollbar was last told about.
    pub scroll_content_length: usize,
    /// The scrollbar position.
    pub scroll_position: usize,
}

/// The row that moving `amount` rows down from `from` reaches in a table of
/// `len` rows that wraps around at its end; from no selection, the first row.
pub open spec fn row_after_next(from: Option<usize>, amount: usize, len: usize) -> int {
    match from {
        Some(i) => (i + amount) % (len as int),
        None => 0,
    }
}

/// The row that moving `amount` rows up from `from` reaches in a table of
/// `len` rows that wraps around at its start; from no selection, the last row.
pub open spec fn row_after_previous(from: Option<usize>, amount: usize, len: usize) -> int {
    match from {
        Some(i) => (i - amount) % (len as int),
        None => len - 1,
    }
}

/// Moves `amount` rows down from row `i` in a wrapping table of `len` rows.
fn wrapping_down(i: usize, amount: usize, len: usize) -> (r: usize)
    requires
        len > 0,
    ensures
        r == (i + amount) % (len as int),
        r < len,
{
    let a = i % len;
    let b = amount % len;
    proof {
        lemma_add_mod_noop(i as int, amount as int, len as int);
        lemma_mod_bound(i as int, len as int);
        lemma_mod_bound(amount as int, len as int);
    }
    if a >= len - b {
        proof {
            lemma_small_mod((a + b - len) as nat, len as nat);
            assert((a + b) % (len as int) == (a + b - len) % (len as int)) by {
                vstd::arithmetic::div_mod::lemma_mod_sub_multiples_vanish((a + b) as int, len as int);
            }
        }
        a - (len - b)
    } else {
        proof {
            lemma_small_mod((a + b) as nat, len as nat);
        }
        a + b
    }
}

/// Moves `amount` rows up from row `i` in a wrapping table of `len` rows.
fn wrapping_up(i: usize, amount: usize, len: usize) -> (r: usize)
    requires
        len > 0,
    ensures
        r == (i - amount) % (len as int),
        r < len,
{
    let a = i % len;
    let b = amount % len;
    proof {
        lemma_sub_mod_noop(i as int, amount as int, len as int);
        lemma_mod_bound(i as int, len as int);
        lemma_mod_bound(amount as int, len as int);
    }
    if a >= b {
        proof {
            lemma_small_mod((a - b) as nat, len as nat);
        }
        a - b
    } else {
        proof {
            lemma_small_mod((a + len - b) as nat, len as nat);
            assert((a - b) % (len as int) == (a - b + len) % (len as int)) by {
                vstd::arithmetic::div_mod::lemma_mod_add_multiples_vanish((a - b) as int, len as int);
            }
        }
        a + (len - b)
    }
}


/// Moving `amount` rows down and then `amount` rows up, in a non-empty table,
/// returns to the row one started from when that row lies inside the table.
pub proof fn lemma_scroll_next_then_previous(from: usize, amount: usize, len: usize)
    requires
        0 < len,
        from < len,
    ensures
        0 <= row_after_next(Some(from), amount, len) < len,
        row_after_previous(Some(row_after_next(Some(from), amount, len) as usize), amount, len)
            == from,
{
    let m = len as int;
    let x = from + amount;
    lemma_mod_bound(x, m);
    lemma_sub_mod_noop(x, amount as int, m);
    lemma_sub_mod_noop_right(x % m, amount as int, m);
    lemma_small_mod(from as nat, len as nat);
}

/// Moving `amount` rows up and then `amount` rows down, in a non-empty table,
/// returns to the row one started from when that row lies inside the table.
pub proof fn lemma_scroll_previous_then_next(from: usize, amount: usize, len: usize)
    requires
        0 < len,
        from < len,
    ensures
        0 <= row_after_previous(Some(from), amount, len) < len,
        row_after_next(Some(row_after_previous(Some(from), amount, len) as usize), amount, len)
            == from,
{
    let m = len as int;
    let x = from - amount;
    lemma_mod_bound(x, m);
    lemma_add_mod_noop(x, amount as int, m);
    lemma_add_mod_noop_right(x % m, amount as int, m);
    lemma_small_mod(from as nat, len as nat);
}

/// The abstract state of the results table.
pub struct SearchResultsView {
    pub crates: Seq<CrateSummary>,
    pub selected: Option<usize>,
    pub scroll_content_length: usize,
    pub scroll_position: usize,
}

impl View for SearchResults {
    type V = SearchResultsView;

    open spec fn view(&self) -> SearchResultsView {
        SearchResultsView {
            crates: self.crates@,
            selected: self.selected,
            scroll_content_length: self.scroll_content_length,
            scroll_position: self.scroll_position,
        }
    }
}

impl SearchResultsView {
    /// The table after `select(index)`.
    pub open spec fn with_selected(self, index: Option<usize>) -> SearchResultsView {
        SearchResultsView { selected: index, ..self }
    }

    /// The table with the selection and the scrollbar on row `row`, or with
    /// no selection and the scrollbar at the top when the table is empty.
    pub open spec fn at_row(self, row: int) -> SearchResultsView {
        if self.crates.len() == 0 {
            SearchResultsView { selected: None, scroll_position: 0, ..self }
        } else {
            SearchResultsView { selected: Some(row as usize), scroll_position: row as usize, ..self }
        }
    }

    /// The table after `scroll_next(amount)`.
    pub open spec fn after_next(self, amount: usize) -> SearchResultsView {
        self.at_row(row_after_next(self.selected, amount, self.crates.len() as usize))
    }

    /// The table after `scroll_previous(amount)`.
    pub open spec fn after_previous(self, amount: usize) -> SearchResultsView {
        self.at_row(row_after_previous(self.selected, amount, self.crates.len() as usize))
    }

    /// The table after `scroll_to_top()`.
    pub open spec fn after_top(self) -> SearchResultsView {
        self.at_row(0)
    }

    /// The table after `scroll_to_bottom()`.
    pub open spec fn after_bottom(self) -> SearchResultsView {
        self.at_row(self.crates.len() - 1)
    }
}

impl SearchResults {
    /// An empty table with nothing selected.
    pub fn new() -> (r: SearchResults)
        ensures
            r@ == (SearchResultsView {
                crates: Seq::empty(),
                selected: None,
                scroll_content_length: 0,
                scroll_position: 0,
            }),
    {
        SearchResults {
            crates: Vec::new(),
            selected: None,
            scroll_content_length: 0,
            scroll_position: 0,
        }
    }

    /// The selected row, if any.
    pub fn selected(&self) -> (r: Option<usize>)
        ensures
            r == self@.selected,
    {
        self.selected
    }

    /// Selects the given row, or clears the selection.
    pub fn select(&mut self, index: Option<usize>)
        ensures
            final(self)@ == old(self)@.with_selected(index),
    {
        self.selected = index;
    }

    /// Tells the scrollbar how many rows the content has.
    pub fn content_length(&mut self, content_length: usize)
        ensures
            final(self)@ == (SearchResultsView {
                scroll_content_length: content_length,
                ..old(self)@
            }),
    {
        self.scroll_content_length = content_length;
    }

    /// Moves the selection `amount` rows down, wrapping from the last row to
    /// the first; with no selection, selects the first row. An empty table
    /// keeps no selection.
    pub fn scroll_next(&mut self, amount: usize)
        ensures
            final(self)@ == old(self)@.after_next(amount),
    {
        let len = self.crates.len();
        if len == 0 {
            self.selected = None;
            self.scroll_position = 0;
            return ;
        }
        let i = match self.selected {
            Some(i) => wrapping_down(i, amount, len),
            None => 0,
        };
        self.selected = Some(i);
        self.scroll_position = i;
    }

    /// Moves the selection `amount` rows up, wrapping from the first row to
    /// the last; with no selection, selects the last row. An empty table
    /// keeps no selection.
    pub fn scroll_previous(&mut self, amount: usize)
        ensures
            final(self)@ == old(self)@.after_previous(amount),
    {
        let len = self.crates.len();
        if len == 0 {
            self.selected = None;
            self.scroll_position = 0;
            return ;
        }
        let i = match self.selected {
            Some(i) => wrapping_up(i, amount, len),
            None => len - 1,
        };
        self.selected = Some(i);
        self.scroll_position = i;
    }

    /// Selects the first row; an empty table keeps no selection.
    pub fn scroll_to_top(&mut self)
        ensures
            final(self)@ == old(self)@.after_top(),
    {
        if self.crates.len() == 0 {
            self.selected = None;
        } else {
            self.selected = Some(0);
        }
        self.scroll_position = 0;
    }

    /// Selects the last row; an empty table keeps no selection.
    pub fn scroll_to_bottom(&mut self)
        ensures
            final(self)@ == old(self)@.after_bottom(),
    {
        let len = self.crates.len();
        if len == 0 {
            self.selected = None;
            self.scroll_position = 0;
        } else {
            self.selected = Some(len - 1);
            self.scroll_position = len - 1;
        }
    }
}

} // verus!
