use vstd::prelude::*;
use crate::action::Action;
use crate::app::{follow_up_of, user_agent_text, AppView, EffectView, SortOrder, RATE_LIMIT_MS};
use crate::filter::{crate_matches, filtered};
use crate::mode::Mode;
use crate::paging::PAGE_SIZE;
use crate::search_results::lemma_scroll_next_then_previous;
use crate::summary::CrateSummary;
use crate::text::{is_white_space, lowercase, occurs_in, scan_words, words};

verus! {

/// No action takes the page number below one.
pub proof fn lemma_page_at_least_one(s: AppView, a: Action)
    requires
        s.page >= 1,
        s.page_size == PAGE_SIZE,
    ensures
        s.acted_on(a).0.page >= 1,
{
    if let Some(n) = s.total_num_crates {
        assert(s.last_page(n) <= u64::MAX);
    }
}

/// Turning pages forward never goes past the last page, one more than the
/// number of full pages of the known total.
pub proof fn lemma_page_forward_bounded(s: AppView, n: u64)
    requires
        s.page_size > 0,
        s.total_num_crates == Some(n),
        s.page <= s.last_page(n),
    ensures
        s.acted_on(Action::IncrementPage).0.page <= s.last_page(n),
{
}

/// Turning a page forward and then back returns to the page one was on, and
/// searches again for it.
pub proof fn lemma_page_forward_then_back(s: AppView, n: u64)
    requires
        s.page >= 1,
        s.page_size == PAGE_SIZE,
        s.total_num_crates == Some(n),
        s.page < s.last_page(n),
    ensures
        s.acted_on(Action::IncrementPage).0.acted_on(Action::DecrementPage).0.page == s.page,
        s.acted_on(Action::IncrementPage).0.acted_on(Action::DecrementPage).1
            == (EffectView::Reload {
            search: s.search,
            page: s.page,
            page_size: s.page_size,
            sort: SortOrder::Relevance,
            user_agent: user_agent_text(),
            rate_limit_ms: RATE_LIMIT_MS,
        }),
{
}

/// In a popup, scrolling down and then up returns to the line one was on.
pub proof fn lemma_popup_scroll_round_trip(s: AppView)
    requires
        s.mode == Mode::Popup,
        s.popup_scroll_index < usize::MAX,
    ensures
        s.acted_on(Action::ScrollDown).0.acted_on(Action::ScrollUp).0 == s,
{
}

/// Outside popups, moving down a row of the results table and then up a row
/// selects again the row one started from.
pub proof fn lemma_table_scroll_round_trip(s: AppView, i: usize)
    requires
        s.mode != Mode::Popup,
        s.results.selected == Some(i),
        i < s.results.crates.len() <= usize::MAX,
    ensures
        s.acted_on(Action::ScrollDown).0.acted_on(Action::ScrollUp).0.results.selected == Some(i),
        s.acted_on(Action::ScrollDown).0.acted_on(Action::ScrollUp).0 == s.with_results(
            s.results.at_row(i as int),
        ),
{
    lemma_scroll_next_then_previous(i, 1, s.results.crates.len() as usize);
}

/// A quit action stops the application, whatever its state.
pub proof fn lemma_quit_stops(s: AppView)
    ensures
        s.acted_on(Action::Quit).0.mode == Mode::Quit,
{
}

proof fn lemma_blank_has_no_words(s: Seq<char>)
    requires
        forall|k: int| 0 <= k < s.len() ==> is_white_space(#[trigger] s[k]),
    ensures
        scan_words(s).0.len() == 0,
        scan_words(s).1.len() == 0,
    decreases s.len(),
{
    if s.len() > 0 {
        lemma_blank_has_no_words(s.drop_last());
        assert(is_white_space(s[s.len() - 1]));
    }
}

proof fn lemma_filter_all(s: Seq<CrateSummary>, p: spec_fn(CrateSummary) -> bool)
    requires
        forall|c: CrateSummary| #[trigger] p(c),
    ensures
        s.filter(p) == s,
    decreases s.len(),
{
    if s.len() > 0 {
        lemma_filter_all(s.drop_last(), p);
        s.drop_last().lemma_filter_push(s.last(), p);
        assert(s.drop_last().push(s.last()) =~= s);
    } else {
        reveal(Seq::filter);
    }
}

/// With a filter made of white space only (or empty), the table shows every
/// loaded crate, in order.
pub proof fn lemma_blank_filter_shows_all(s: AppView)
    requires
        forall|k: int| 0 <= k < s.filter.len() ==> is_white_space(#[trigger] s.filter[k]),
    ensures
        s.acted_on(Action::Tick).0.results.crates == s.crates,
{
    lemma_blank_has_no_words(s.filter);
    assert(words(s.filter) =~= Seq::<Seq<char>>::empty());
    let p = |c: CrateSummary| crate_matches(c, words(s.filter));
    assert forall|c: CrateSummary| #[trigger] p(c) by {}
    lemma_filter_all(s.crates, p);
}

/// Every crate the table shows after a tick is a loaded crate that matches
/// every word of the filter.
pub proof fn lemma_shown_crates_match(s: AppView)
    ensures
        forall|i: int|
            0 <= i < s.acted_on(Action::Tick).0.results.crates.len() ==> {
                let c = #[trigger] s.acted_on(Action::Tick).0.results.crates[i];
                crate_matches(c, words(s.filter)) && s.crates.contains(c)
            },
{
    broadcast use vstd::seq_lib::group_filter_ensures;

    let p = |c: CrateSummary| crate_matches(c, words(s.filter));
    assert forall|i: int|
        0 <= i < filtered(s.crates, s.filter).len() implies {
        let c = #[trigger] filtered(s.crates, s.filter)[i];
        crate_matches(c, words(s.filter)) && s.crates.contains(c)
    } by {
        s.crates.lemma_filter_pred(p, i);
        s.crates.lemma_filter_contains_rev(p, filtered(s.crates, s.filter)[i]);
    }
}

/// A submitted search is followed by a reload, which searches for the text
/// that was typed, on the same page, with the filter cleared.
pub proof fn lemma_submit_then_reload(s: AppView)
    ensures
        follow_up_of(Action::SubmitSearch) == Some(Action::ReloadData),
        s.acted_on(Action::SubmitSearch).0.filter.len() == 0,
        s.acted_on(Action::SubmitSearch).0.mode == Mode::Picker,
        s.acted_on(Action::SubmitSearch).0.acted_on(Action::ReloadData).1 == (EffectView::Reload {
            search: s.input,
            page: s.page,
            page_size: s.page_size,
            sort: SortOrder::Relevance,
            user_agent: user_agent_text(),
            rate_limit_ms: RATE_LIMIT_MS,
        }),
{
}

/// Entering search mode and submitting without typing keeps the query.
pub proof fn lemma_search_mode_round_trip(s: AppView)
    ensures
        s.acted_on(Action::EnterSearchInsertMode).0.acted_on(Action::SubmitSearch).0.search
            == s.search,
{
}

/// Entering filter mode and applying the input without typing keeps the
/// filter.
pub proof fn lemma_filter_mode_round_trip(s: AppView)
    ensures
        s.acted_on(Action::EnterFilterInsertMode).0.acted_on(
            Action::HandleFilterPromptChange,
        ).0.filter == s.filter,
{
}

/// Closing a popup removes both messages and returns to search mode,
/// whatever was shown.
pub proof fn lemma_close_popup(s: AppView, err: String)
    ensures
        s.acted_on(Action::ShowErrorPopup(err)).0.acted_on(Action::ClosePopup).0 == (AppView {
            error_message: None,
            info_message: None,
            mode: Mode::Search,
            ..s
        }),
{
}

/// Toggling the details pane twice leaves it as it was, and the details are
/// forgotten whenever the pane ends up hidden.
pub proof fn lemma_toggle_details_twice(s: AppView)
    ensures
        s.acted_on(Action::ToggleShowCrateInfo).0.acted_on(
            Action::ToggleShowCrateInfo,
        ).0.show_crate_info == s.show_crate_info,
        !s.acted_on(Action::ToggleShowCrateInfo).0.show_crate_info ==> s.acted_on(
            Action::ToggleShowCrateInfo,
        ).0.crate_info is None,
{
}


proof fn lemma_filter_narrows(
    s: Seq<CrateSummary>,
    p: spec_fn(CrateSummary) -> bool,
    q: spec_fn(CrateSummary) -> bool,
)
    requires
        forall|c: CrateSummary| #[trigger] q(c) ==> p(c),
    ensures
        s.filter(q) == s.filter(p).filter(q),
    decreases s.len(),
{
    if s.len() > 0 {
        let t = s.drop_last();
        let x = s.last();
        lemma_filter_narrows(t, p, q);
        assert(t.push(x) =~= s);
        t.lemma_filter_push(x, q);
        t.lemma_filter_push(x, p);
        t.filter(p).lemma_filter_push(x, q);
    } else {
        reveal(Seq::filter);
    }
}

proof fn lemma_more_words_match_less(c: CrateSummary, w1: Seq<Seq<char>>, w2: Seq<Seq<char>>)
    requires
        forall|k: int| 0 <= k < w1.len() ==> w2.contains(#[trigger] w1[k]),
        crate_matches(c, w2),
    ensures
        crate_matches(c, w1),
{
    assert forall|k: int| 0 <= k < w1.len() implies occurs_in(#[trigger] w1[k], lowercase(c.name@))
        || occurs_in(w1[k], lowercase(c.description_text())) by {
        assert(w2.contains(w1[k]));
        let j = choose|j: int| 0 <= j < w2.len() && w2[j] == w1[k];
        assert(occurs_in(w2[j], lowercase(c.name@)) || occurs_in(
            w2[j],
            lowercase(c.description_text()),
        ));
    }
}

/// When every word of filter `f1` is also a word of filter `f2`, the crates
/// that `f2` keeps are a subsequence of those that `f1` keeps: exactly the
/// crates of the `f1` result, in their order, that also match `f2`.
pub proof fn lemma_more_words_keep_subsequence(
    crates: Seq<CrateSummary>,
    f1: Seq<char>,
    f2: Seq<char>,
)
    requires
        forall|k: int| 0 <= k < words(f1).len() ==> words(f2).contains(#[trigger] words(f1)[k]),
    ensures
        filtered(crates, f2) == filtered(crates, f1).filter(
            |c: CrateSummary| crate_matches(c, words(f2)),
        ),
{
    let p = |c: CrateSummary| crate_matches(c, words(f1));
    let q = |c: CrateSummary| crate_matches(c, words(f2));
    assert forall|c: CrateSummary| #[trigger] q(c) implies p(c) by {
        lemma_more_words_match_less(c, words(f1), words(f2));
    }
    lemma_filter_narrows(crates, p, q);
}

/// After a tick, the table under a filter that holds every word of another
/// filter shows a subsequence of the table under that other filter.
pub proof fn lemma_tick_with_more_words(s: AppView, f1: Seq<char>, f2: Seq<char>)
    requires
        forall|k: int| 0 <= k < words(f1).len() ==> words(f2).contains(#[trigger] words(f1)[k]),
    ensures
        (AppView { filter: f2, ..s }).acted_on(Action::Tick).0.results.crates == (AppView {
            filter: f1,
            ..s
        }).acted_on(Action::Tick).0.results.crates.filter(
            |c: CrateSummary| crate_matches(c, words(f2)),
        ),
{
    lemma_more_words_keep_subsequence(s.crates, f1, f2);
}


/// A tick re-filters the table but leaves its selected row where it was.
pub proof fn lemma_tick_keeps_selection(s: AppView)
    ensures
        s.acted_on(Action::Tick).0.results.selected == s.results.selected,
        s.acted_on(Action::Tick).0.results.scroll_position == s.results.scroll_position,
{
}

/// Turning to the next page searches again for the submitted query (not for
/// whatever the input holds), on the next page, with the fixed page size.
pub proof fn lemma_page_forward_searches_query(s: AppView, n: u64)
    requires
        s.page_size == PAGE_SIZE,
        s.total_num_crates == Some(n),
        s.page < s.last_page(n),
    ensures
        s.acted_on(Action::IncrementPage).0.page == s.page + 1,
        s.acted_on(Action::IncrementPage).0.search == s.search,
        s.acted_on(Action::IncrementPage).1 == (EffectView::Reload {
            search: s.search,
            page: (s.page + 1) as u64,
            page_size: s.page_size,
            sort: SortOrder::Relevance,
            user_agent: user_agent_text(),
            rate_limit_ms: RATE_LIMIT_MS,
        }),
{
}

/// Turning to the previous page searches again for the submitted query, on
/// the previous page.
pub proof fn lemma_page_back_searches_query(s: AppView)
    requires
        s.page > 1,
    ensures
        s.acted_on(Action::DecrementPage).0.page == s.page - 1,
        s.acted_on(Action::DecrementPage).1 == (EffectView::Reload {
            search: s.search,
            page: (s.page - 1) as u64,
            page_size: s.page_size,
            sort: SortOrder::Relevance,
            user_agent: user_agent_text(),
            rate_limit_ms: RATE_LIMIT_MS,
        }),
{
}

/// While the details pane is shown, a change of selection asks for the
/// details of the newly selected crate, whatever details are kept, and
/// marks the application as loading.
pub proof fn lemma_selection_change_fetches_selected(s: AppView, i: usize)
    requires
        s.show_crate_info,
        s.results.selected == Some(i),
        i < s.results.crates.len(),
        s.results.crates[i as int].name@.len() > 0,
    ensures
        s.acted_on(Action::UpdateCurrentSelectionCrateInfo).1 == (EffectView::FetchDetails {
            name: s.results.crates[i as int].name@,
            user_agent: user_agent_text(),
            rate_limit_ms: RATE_LIMIT_MS,
        }),
        s.acted_on(Action::UpdateCurrentSelectionCrateInfo).0.loading,
        s.acted_on(Action::UpdateCurrentSelectionCrateInfo).0.crate_info == s.crate_info,
{
}

/// While the details pane is hidden, a change of selection asks for nothing
/// and forgets the kept details.
pub proof fn lemma_selection_change_hidden_pane(s: AppView)
    requires
        !s.show_crate_info,
    ensures
        s.acted_on(Action::UpdateCurrentSelectionCrateInfo).1 == EffectView::Nothing,
        s.acted_on(Action::UpdateCurrentSelectionCrateInfo).0.crate_info is None,
{
}

/// Returning to picker mode keeps a selected row; with nothing selected and
/// crates listed it selects the first row.
pub proof fn lemma_normal_mode_selection(s: AppView)
    ensures
        s.acted_on(Action::EnterNormal).0.mode == Mode::Picker,
        s.results.selected is Some ==> s.acted_on(Action::EnterNormal).0.results.selected
            == s.results.selected,
        s.results.selected is None && s.results.crates.len() > 0 ==> s.acted_on(
            Action::EnterNormal,
        ).0.results.selected == Some(0usize),
        s.results.crates.len() == 0 ==> s.acted_on(Action::EnterNormal).0.results.selected
            == s.results.selected,
{
}

/// Closing popups, in any state, removes both the error and the info
/// message and returns to search mode.
pub proof fn lemma_close_popup_clears_both(s: AppView)
    ensures
        s.acted_on(Action::ClosePopup).0.error_message is None,
        s.acted_on(Action::ClosePopup).0.info_message is None,
        s.acted_on(Action::ClosePopup).0.mode == Mode::Search,
{
}

} // verus!
