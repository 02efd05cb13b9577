use vstd::prelude::*;
use crate::action::Action;
use crate::filter::{filter_crates, filtered};
use crate::input::{
    input_cursor,
    input_handle_key,
    input_text,
    input_value,
    input_with_value,
    new_input,
    input_after_key,
};
use crate::mode::Mode;
use crate::paging::{Paging, PAGE_SIZE};
use crate::search_results::{SearchResults, SearchResultsView};
use crate::sort::{downloads_non_increasing, same_runs_per_count, sort_by_downloads_desc};
use crate::summary::CrateSummary;

verus! {

/// The text of an optional string.
pub open spec fn opt_text(o: Option<String>) -> Option<Seq<char>> {
    match o {
        Some(s) => Some(s@),
        None => None,
    }
}

/// What the terminal reports to the application.
pub enum Event {
    Quit,
    Tick,
    KeyRefresh,
    Render,
    Resize(u16, u16),
    Key(crossterm::event::KeyEvent),
    /// Any other terminal event; the application ignores it.
    Other,
}

/// The order in which the registry is asked to sort search results.
#[derive(Debug, Clone, Copy, PartialEq, Eq, Structural)]
pub enum SortOrder {
    /// By relevance to the query.
    Relevance,
}

/// The minimum time, in milliseconds, between two requests of one registry
/// client.
pub const RATE_LIMIT_MS: u64 = 1000;

/// The user agent that registry clients identify themselves with.
pub open spec fn user_agent_text() -> Seq<char> {
    "crates-tui (crates-tui@kdheepak.com)"@
}

/// How to build the registry client for a request.
pub struct ClientSettings {
    pub user_agent: String,
    pub rate_limit_ms: u64,
}

/// The client settings of every request: the application's user agent and a
/// rate limit of one request per second.
pub fn client_settings() -> (r: ClientSettings)
    ensures
        r.user_agent@ == user_agent_text(),
        r.rate_limit_ms == RATE_LIMIT_MS,
{
    ClientSettings {
        user_agent: String::from_str("crates-tui (crates-tui@kdheepak.com)"),
        rate_limit_ms: RATE_LIMIT_MS,
    }
}

/// A search request to send to the crates.io registry.
pub struct CratesQuery {
    pub search: String,
    pub page: u64,
    pub page_size: u64,
    pub sort: SortOrder,
    pub client: ClientSettings,
}

/// Work outside the application state that handling an action asks for.
pub enum Effect {
    Nothing,
    /// Draw the application on the terminal.
    Draw,
    /// Resize the terminal viewport to the given width and height.
    Resize(u16, u16),
    /// Fetch a page of search results, then report it with `crates_loaded`.
    Reload(CratesQuery),
    /// Fetch the details of the named crate, then report them with
    /// `crate_details_loaded`.
    FetchDetails { name: String, client: ClientSettings },
}

/// The abstract form of an [`Effect`].
pub enum EffectView {
    Nothing,
    Draw,
    Resize(u16, u16),
    Reload {
        search: Seq<char>,
        page: u64,
        page_size: u64,
        sort: SortOrder,
        user_agent: Seq<char>,
        rate_limit_ms: u64,
    },
    FetchDetails { name: Seq<char>, user_agent: Seq<char>, rate_limit_ms: u64 },
}

impl View for Effect {
    type V = EffectView;

    open spec fn view(&self) -> EffectView {
        match self {
            Effect::Nothing => EffectView::Nothing,
            Effect::Draw => EffectView::Draw,
            Effect::Resize(w, h) => EffectView::Resize(*w, *h),
            Effect::Reload(q) => EffectView::Reload {
                search: q.search@,
                page: q.page,
                page_size: q.page_size,
                sort: q.sort,
                user_agent: q.client.user_agent@,
                rate_limit_ms: q.client.rate_limit_ms,
            },
            Effect::FetchDetails { name, client } => EffectView::FetchDetails {
                name: name@,
                user_agent: client.user_agent@,
                rate_limit_ms: client.rate_limit_ms,
            },
        }
    }
}

/// The outcome of handling one action: outside work to do, and an action to
/// queue next.
pub struct Step {
    pub effect: Effect,
    pub follow_up: Option<Action>,
}

/// How a search request ended.
pub enum CratesOutcome {
    /// The registry client could not be built; the text describes why.
    ClientFailed(String),
    /// The request failed; the text describes why.
    RequestFailed(String),
    /// One page of results, and the total number of crates that match.
    Page { crates: Vec<CrateSummary>, total: u64 },
}

/// How a request for the details of one crate ended.
pub enum DetailsOutcome {
    /// The registry client could not be built; the text describes why.
    ClientFailed(String),
    /// The request failed; the text describes why.
    RequestFailed(String),
    /// The crate's details.
    Fetched(CrateSummary),
}

/// The abstract state of the application.
pub struct AppView {
    pub page: u64,
    pub page_size: u64,
    pub loading: bool,
    pub crates: Seq<CrateSummary>,
    pub crate_info: Option<CrateSummary>,
    pub total_num_crates: Option<u64>,
    pub search: Seq<char>,
    pub filter: Seq<char>,
    pub input: Seq<char>,
    pub results: SearchResultsView,
    pub show_crate_info: bool,
    pub error_message: Option<Seq<char>>,
    pub info_message: Option<Seq<char>>,
    pub popup_scroll_index: usize,
    pub mode: Mode,
    pub key_events: Seq<crossterm::event::KeyEvent>,
}

impl AppView {
    /// The state of a freshly started application.
    pub open spec fn initial() -> AppView {
        AppView {
            page: 1,
            page_size: PAGE_SIZE,
            loading: false,
            crates: Seq::empty(),
            crate_info: None,
            total_num_crates: None,
            search: Seq::empty(),
            filter: Seq::empty(),
            input: Seq::empty(),
            results: SearchResultsView {
                crates: Seq::empty(),
                selected: None,
                scroll_content_length: 0,
                scroll_position: 0,
            },
            show_crate_info: false,
            error_message: None,
            info_message: None,
            popup_scroll_index: 0,
            mode: Mode::Search,
            key_events: Seq::empty(),
        }
    }

    pub open spec fn quitted(self) -> AppView {
        AppView { mode: Mode::Quit, ..self }
    }

    pub open spec fn keys_dropped(self) -> AppView {
        AppView { key_events: Seq::empty(), ..self }
    }

    /// The table shows the loaded crates that match the filter; the scrollbar
    /// is told the length the table had before.
    pub open spec fn table_updated(self) -> AppView {
        AppView {
            results: SearchResultsView {
                crates: filtered(self.crates, self.filter),
                scroll_content_length: self.results.crates.len() as usize,
                ..self.results
            },
            ..self
        }
    }

    pub open spec fn with_total(self, n: u64) -> AppView {
        AppView { total_num_crates: Some(n), ..self }
    }

    pub open spec fn with_results(self, results: SearchResultsView) -> AppView {
        AppView { results, ..self }
    }

    pub open spec fn popup_scrolled_up(self) -> AppView {
        AppView {
            popup_scroll_index: if self.popup_scroll_index == 0 {
                0
            } else {
                (self.popup_scroll_index - 1) as usize
            },
            ..self
        }
    }

    pub open spec fn popup_scrolled_down(self) -> AppView {
        AppView {
            popup_scroll_index: if self.popup_scroll_index == usize::MAX {
                usize::MAX
            } else {
                (self.popup_scroll_index + 1) as usize
            },
            ..self
        }
    }

    /// A new search for the current query and page: the selection and the
    /// crate details are cleared, loading starts.
    pub open spec fn reloading(self) -> (AppView, EffectView) {
        (
            AppView {
                results: self.results.with_selected(None),
                crate_info: None,
                loading: true,
                ..self
            },
            EffectView::Reload {
                search: self.search,
                page: self.page,
                page_size: self.page_size,
                sort: SortOrder::Relevance,
                user_agent: user_agent_text(),
                rate_limit_ms: RATE_LIMIT_MS,
            },
        )
    }

    /// The last page there is: one more than the number of full pages.
    pub open spec fn last_page(self, total: u64) -> int {
        total / self.page_size + 1
    }

    /// Moves to the next page when the total is known and the page is not
    /// the last one, and searches again.
    pub open spec fn paged_forward(self) -> (AppView, EffectView) {
        match self.total_num_crates {
            Some(n) => if self.page < self.last_page(n) {
                AppView { page: (self.page + 1) as u64, ..self }.reloading()
            } else {
                (self, EffectView::Nothing)
            },
            None => (self, EffectView::Nothing),
        }
    }

    /// Moves to the previous page unless on the first, and searches again.
    pub open spec fn paged_back(self) -> (AppView, EffectView) {
        if self.page > 1 {
            AppView { page: (self.page - 1) as u64, ..self }.reloading()
        } else {
            (self, EffectView::Nothing)
        }
    }

    pub open spec fn search_insert(self) -> AppView {
        AppView { mode: Mode::Search, input: self.search, ..self }
    }

    pub open spec fn filter_insert(self) -> AppView {
        AppView { show_crate_info: false, mode: Mode::Filter, input: self.filter, ..self }
    }

    /// Picker mode; with crates listed and nothing selected, the first row
    /// becomes selected.
    pub open spec fn normal(self) -> AppView {
        AppView {
            mode: Mode::Picker,
            results: if self.results.crates.len() > 0 && self.results.selected is None {
                self.results.with_selected(Some(0))
            } else {
                self.results
            },
            ..self
        }
    }

    pub open spec fn filter_changed(self) -> AppView {
        AppView { filter: self.input, results: self.results.with_selected(None), ..self }
    }

    pub open spec fn search_submitted(self) -> AppView {
        AppView { mode: Mode::Picker, filter: Seq::empty(), search: self.input, ..self }
    }

    /// The name of the selected crate, when a row inside the table is
    /// selected and that crate's name is not empty.
    pub open spec fn selected_name(self) -> Option<Seq<char>> {
        match self.results.selected {
            Some(i) => if i < self.results.crates.len() && self.results.crates[i as int].name@.len()
                > 0 {
                Some(self.results.crates[i as int].name@)
            } else {
                None
            },
            None => None,
        }
    }

    /// Asks for the details of the selected crate, when there is one.
    pub open spec fn details_requested(self) -> (AppView, EffectView) {
        if self.results.crates.len() == 0 {
            (self, EffectView::Nothing)
        } else {
            match self.selected_name() {
                Some(name) => (
                    AppView { loading: true, ..self },
                    EffectView::FetchDetails {
                        name,
                        user_agent: user_agent_text(),
                        rate_limit_ms: RATE_LIMIT_MS,
                    },
                ),
                None => (self, EffectView::Nothing),
            }
        }
    }

    /// Shows the details pane, asking for the selected crate's details, or
    /// hides it and forgets the details.
    pub open spec fn info_toggled(self) -> (AppView, EffectView) {
        let s = AppView { show_crate_info: !self.show_crate_info, ..self };
        if s.show_crate_info {
            s.details_requested()
        } else {
            (AppView { crate_info: None, ..s }, EffectView::Nothing)
        }
    }

    /// With the details pane shown, asks for the details of the selected
    /// crate; otherwise forgets the details.
    pub open spec fn selection_info_updated(self) -> (AppView, EffectView) {
        if self.show_crate_info {
            self.details_requested()
        } else {
            (AppView { crate_info: None, ..self }, EffectView::Nothing)
        }
    }

    pub open spec fn error_shown(self, err: Seq<char>) -> AppView {
        AppView { error_message: Some(err), mode: Mode::Popup, ..self }
    }

    pub open spec fn info_shown(self, info: Seq<char>) -> AppView {
        AppView { info_message: Some(info), mode: Mode::Popup, ..self }
    }

    pub open spec fn popups_closed(self) -> AppView {
        AppView { error_message: None, info_message: None, mode: Mode::Search, ..self }
    }

    /// The state and the outside work after handling `a`.
    pub open spec fn acted_on(self, a: Action) -> (AppView, EffectView) {
        match a {
            Action::Quit => (self.quitted(), EffectView::Nothing),
            Action::Render => (self, EffectView::Draw),
            Action::KeyRefresh => (self.keys_dropped(), EffectView::Nothing),
            Action::Resize(w, h) => (self, EffectView::Resize(w, h)),
            Action::Tick => (self.table_updated(), EffectView::Nothing),
            Action::StoreTotalNumberOfCrates(n) => (self.with_total(n), EffectView::Nothing),
            Action::ScrollUp => if self.mode == Mode::Popup {
                (self.popup_scrolled_up(), EffectView::Nothing)
            } else {
                (self.with_results(self.results.after_previous(1)), EffectView::Nothing)
            },
            Action::ScrollDown => if self.mode == Mode::Popup {
                (self.popup_scrolled_down(), EffectView::Nothing)
            } else {
                (self.with_results(self.results.after_next(1)), EffectView::Nothing)
            },
            Action::ScrollTop => (self.with_results(self.results.after_top()), EffectView::Nothing),
            Action::ScrollBottom => (
                self.with_results(self.results.after_bottom()),
                EffectView::Nothing,
            ),
            Action::ReloadData => self.reloading(),
            Action::IncrementPage => self.paged_forward(),
            Action::DecrementPage => self.paged_back(),
            Action::EnterSearchInsertMode => (self.search_insert(), EffectView::Nothing),
            Action::EnterFilterInsertMode => (self.filter_insert(), EffectView::Nothing),
            Action::HandleFilterPromptChange => (self.filter_changed(), EffectView::Nothing),
            Action::EnterNormal => (self.normal(), EffectView::Nothing),
            Action::SubmitSearch => (self.search_submitted(), EffectView::Nothing),
            Action::ToggleShowCrateInfo => self.info_toggled(),
            Action::UpdateCurrentSelectionCrateInfo => self.selection_info_updated(),
            Action::ShowErrorPopup(err) => (self.error_shown(err@), EffectView::Nothing),
            Action::ShowInfoPopup(info) => (self.info_shown(info@), EffectView::Nothing),
            Action::ClosePopup => (self.popups_closed(), EffectView::Nothing),
            _ => (self, EffectView::Nothing),
        }
    }
}

/// Every action but entering search or filter mode leaves the text input,
/// cursor and cut buffer included, as it was.
pub open spec fn keeps_input(a: Action) -> bool {
    !(a is EnterSearchInsertMode || a is EnterFilterInsertMode)
}

/// The action to queue after handling `a`: moving in the table asks for the
/// details of the newly selected crate, a submitted search reloads, and a
/// resize redraws.
pub open spec fn follow_up_of(a: Action) -> Option<Action> {
    match a {
        Action::ScrollUp | Action::ScrollDown | Action::ScrollTop | Action::ScrollBottom => Some(
            Action::UpdateCurrentSelectionCrateInfo,
        ),
        Action::SubmitSearch => Some(Action::ReloadData),
        Action::Resize(_, _) => Some(Action::Render),
        _ => None,
    }
}

/// The application: search query and filter, paging, the crates of the
/// current page, the results table, popups and the input mode.
pub struct App {
    paging: Paging,
    loading: bool,
    crates: Vec<CrateSummary>,
    crate_info: Option<CrateSummary>,
    total_num_crates: Option<u64>,
    search: String,
    filter: String,
    input: tui_input::Input,
    search_results: SearchResults,
    show_crate_info: bool,
    error_message: Option<String>,
    info_message: Option<String>,
    popup_scroll_index: usize,
    mode: Mode,
    last_tick_key_events: Vec<crossterm::event::KeyEvent>,
}

impl View for App {
    type V = AppView;

    closed spec fn view(&self) -> AppView {
        AppView {
            page: self.paging@.0,
            page_size: self.paging@.1,
            loading: self.loading,
            crates: self.crates@,
            crate_info: self.crate_info,
            total_num_crates: self.total_num_crates,
            search: self.search@,
            filter: self.filter@,
            input: input_text(self.input),
            results: self.search_results@,
            show_crate_info: self.show_crate_info,
            error_message: opt_text(self.error_message),
            info_message: opt_text(self.info_message),
            popup_scroll_index: self.popup_scroll_index,
            mode: self.mode,
            key_events: self.last_tick_key_events@,
        }
    }
}

impl App {
    /// The whole state of the text input: its text, cursor and cut buffer.
    pub closed spec fn input_state(&self) -> tui_input::Input {
        self.input
    }

    /// A freshly started application: first page, search mode, nothing
    /// loaded, nothing typed.
    pub fn new() -> (app: App)
        ensures
            app@ == AppView::initial(),
    {
        App {
            paging: Paging::new(),
            loading: false,
            crates: Vec::new(),
            crate_info: None,
            total_num_crates: None,
            search: String::new(),
            filter: String::new(),
            input: new_input(),
            search_results: SearchResults::new(),
            show_crate_info: false,
            error_message: None,
            info_message: None,
            popup_scroll_index: 0,
            mode: Mode::Search,
            last_tick_key_events: Vec::new(),
        }
    }
}


impl App {
    /// Whether the application is to stop.
    pub fn should_quit(&self) -> (r: bool)
        ensures
            r == (self@.mode == Mode::Quit),
    {
        self.mode == Mode::Quit
    }

    /// Asks the application to stop.
    pub fn quit(&mut self)
        ensures
            final(self).input_state() == old(self).input_state(),
            final(self)@ == old(self)@.quitted(),
    {
        self.mode = Mode::Quit;
    }

    /// On each tick the table is brought up to date.
    pub fn tick(&mut self)
        ensures
            final(self).input_state() == old(self).input_state(),
            final(self)@ == old(self)@.table_updated(),
    {
        self.update_crate_table();
    }

    /// Shows in the table the loaded crates that match every word of the
    /// filter, and tells the scrollbar the length the table had before.
    pub fn update_crate_table(&mut self)
        ensures
            final(self).input_state() == old(self).input_state(),
            final(self)@ == old(self)@.table_updated(),
    {
        let n = self.search_results.crates.len();
        self.search_results.content_length(n);
        let shown = filter_crates(&self.crates, self.filter.as_str());
        self.search_results.crates = shown;
    }

    /// Forgets the keys pressed since the last key refresh.
    pub fn key_refresh_tick(&mut self)
        ensures
            final(self).input_state() == old(self).input_state(),
            final(self)@ == old(self)@.keys_dropped(),
    {
        self.last_tick_key_events.clear();
    }

    /// Records how many crates match the search in total.
    pub fn store_total_number_of_crates(&mut self, n: u64)
        ensures
            final(self).input_state() == old(self).input_state(),
            final(self)@ == old(self)@.with_total(n),
    {
        self.total_num_crates = Some(n);
    }

    /// Scrolls the popup one line up, stopping at the top.
    pub fn popup_scroll_previous(&mut self)
        ensures
            final(self).input_state() == old(self).input_state(),
            final(self)@ == old(self)@.popup_scrolled_up(),
    {
        self.popup_scroll_index = self.popup_scroll_index.saturating_sub(1);
    }

    /// Scrolls the popup one line down.
    pub fn popup_scroll_next(&mut self)
        ensures
            final(self).input_state() == old(self).input_state(),
            final(self)@ == old(self)@.popup_scrolled_down(),
    {
        self.popup_scroll_index = self.popup_scroll_index.saturating_add(1);
    }

    /// Starts a new search for the current query and page: clears the
    /// selection and the crate details, and marks the application as loading.
    pub fn reload_data(&mut self) -> (effect: Effect)
        ensures
            final(self).input_state() == old(self).input_state(),
            (final(self)@, effect@) == old(self)@.reloading(),
    {
        self.search_results.select(None);
        self.crate_info = None;
        self.loading = true;
        Effect::Reload(
            CratesQuery {
                search: self.search.clone(),
                page: self.paging.page(),
                page_size: self.paging.page_size(),
                sort: SortOrder::Relevance,
                client: client_settings(),
            },
        )
    }

    /// Moves to the next page, when the total number of crates is known and
    /// the current page is not the last one, and searches again.
    pub fn increment_page(&mut self) -> (effect: Effect)
        ensures
            final(self).input_state() == old(self).input_state(),
            (final(self)@, effect@) == old(self)@.paged_forward(),
    {
        match self.total_num_crates {
            Some(n) => {
                let max_page = n / self.paging.page_size() + 1;
                let page = self.paging.page();
                if page < max_page {
                    self.paging.set_page(page + 1);
                    self.reload_data()
                } else {
                    Effect::Nothing
                }
            },
            None => Effect::Nothing,
        }
    }

    /// Moves to the previous page, unless on the first, and searches again.
    pub fn decrement_page(&mut self) -> (effect: Effect)
        ensures
            final(self).input_state() == old(self).input_state(),
            (final(self)@, effect@) == old(self)@.paged_back(),
    {
        let page = self.paging.page();
        if page > 1 {
            self.paging.set_page(page - 1);
            self.reload_data()
        } else {
            Effect::Nothing
        }
    }

    /// Search mode, with the input holding the current query and the cursor
    /// at its end.
    pub fn enter_search_insert_mode(&mut self)
        ensures
            final(self)@ == old(self)@.search_insert(),
            input_cursor(final(self).input_state()) == final(self)@.input.len(),
    {
        self.mode = Mode::Search;
        let mut taken = new_input();
        std::mem::swap(&mut taken, &mut self.input);
        self.input = input_with_value(taken, self.search.clone());
    }

    /// Filter mode, with the details pane hidden and the input holding the
    /// current filter, with the cursor at its end.
    pub fn enter_filter_insert_mode(&mut self)
        ensures
            final(self)@ == old(self)@.filter_insert(),
            input_cursor(final(self).input_state()) == final(self)@.input.len(),
    {
        self.show_crate_info = false;
        self.mode = Mode::Filter;
        let mut taken = new_input();
        std::mem::swap(&mut taken, &mut self.input);
        self.input = input_with_value(taken, self.filter.clone());
    }

    /// Picker mode; selects the first row when crates are listed and none
    /// is selected.
    pub fn enter_normal_mode(&mut self)
        ensures
            final(self).input_state() == old(self).input_state(),
            final(self)@ == old(self)@.normal(),
    {
        self.mode = Mode::Picker;
        if self.search_results.crates.len() > 0 && self.search_results.selected().is_none() {
            self.search_results.select(Some(0));
        }
    }

    /// The filter becomes the text of the input, and the selection is cleared.
    pub fn handle_filter_prompt_change(&mut self)
        ensures
            final(self).input_state() == old(self).input_state(),
            final(self)@ == old(self)@.filter_changed(),
    {
        self.filter = input_value(&self.input);
        self.search_results.select(None);
    }

    /// Picker mode; the query becomes the text of the input, and the filter
    /// is cleared.
    pub fn submit_search(&mut self)
        ensures
            final(self).input_state() == old(self).input_state(),
            final(self)@ == old(self)@.search_submitted(),
    {
        self.mode = Mode::Picker;
        self.filter = String::new();
        self.search = input_value(&self.input);
    }

    /// The name of the selected crate, when a row inside the table is
    /// selected and that crate's name is not empty.
    pub fn selected_crate_name(&self) -> (r: Option<String>)
        ensures
            opt_text(r) == self@.selected_name(),
    {
        match self.search_results.selected() {
            Some(i) => {
                if i < self.search_results.crates.len() {
                    let c = &self.search_results.crates[i];
                    if !c.name.as_str().is_empty() {
                        Some(c.name.clone())
                    } else {
                        None
                    }
                } else {
                    None
                }
            },
            None => None,
        }
    }

    /// Asks for the details of the selected crate, when the table is not
    /// empty and a crate with a name is selected.
    pub fn fetch_crate_details(&mut self) -> (effect: Effect)
        ensures
            final(self).input_state() == old(self).input_state(),
            (final(self)@, effect@) == old(self)@.details_requested(),
    {
        if self.search_results.crates.len() == 0 {
            return Effect::Nothing;
        }
        match self.selected_crate_name() {
            Some(name) => {
                self.loading = true;
                Effect::FetchDetails { name, client: client_settings() }
            },
            None => Effect::Nothing,
        }
    }

    /// Shows the details pane and asks for the selected crate's details, or
    /// hides it and forgets the details.
    pub fn toggle_show_crate_info(&mut self) -> (effect: Effect)
        ensures
            final(self).input_state() == old(self).input_state(),
            (final(self)@, effect@) == old(self)@.info_toggled(),
    {
        self.show_crate_info = !self.show_crate_info;
        if self.show_crate_info {
            self.fetch_crate_details()
        } else {
            self.crate_info = None;
            Effect::Nothing
        }
    }

    /// With the details pane shown, asks for the selected crate's details;
    /// otherwise forgets the details.
    pub fn update_current_selection_crate_info(&mut self) -> (effect: Effect)
        ensures
            final(self).input_state() == old(self).input_state(),
            (final(self)@, effect@) == old(self)@.selection_info_updated(),
    {
        if self.show_crate_info {
            self.fetch_crate_details()
        } else {
            self.crate_info = None;
            Effect::Nothing
        }
    }

    /// Shows an error in a popup.
    pub fn set_error_flag(&mut self, err: String)
        ensures
            final(self).input_state() == old(self).input_state(),
            final(self)@ == old(self)@.error_shown(err@),
    {
        self.error_message = Some(err);
        self.mode = Mode::Popup;
    }

    /// Shows a message in a popup.
    pub fn set_info_flag(&mut self, info: String)
        ensures
            final(self).input_state() == old(self).input_state(),
            final(self)@ == old(self)@.info_shown(info@),
    {
        self.info_message = Some(info);
        self.mode = Mode::Popup;
    }

    /// Closes the popups and returns to search mode.
    pub fn clear_error_and_info_flags(&mut self)
        ensures
            final(self).input_state() == old(self).input_state(),
            final(self)@ == old(self)@.popups_closed(),
    {
        self.error_message = None;
        self.info_message = None;
        self.mode = Mode::Search;
    }

    /// Performs an action: changes the state as the action says, and reports
    /// the outside work it needs and the action to queue next.
    pub fn handle_action(&mut self, action: Action) -> (step: Step)
        ensures
            (final(self)@, step.effect@) == old(self)@.acted_on(action),
            step.follow_up == follow_up_of(action),
            keeps_input(action) ==> final(self).input_state() == old(self).input_state(),
            !keeps_input(action) ==> input_cursor(final(self).input_state())
                == final(self)@.input.len(),
    {
        let follow_up = match &action {
            Action::ScrollUp | Action::ScrollDown | Action::ScrollTop | Action::ScrollBottom => Some(
                Action::UpdateCurrentSelectionCrateInfo,
            ),
            Action::SubmitSearch => Some(Action::ReloadData),
            Action::Resize(_, _) => Some(Action::Render),
            _ => None,
        };
        let effect = match action {
            Action::Quit => {
                self.quit();
                Effect::Nothing
            },
            Action::Render => Effect::Draw,
            Action::KeyRefresh => {
                self.key_refresh_tick();
                Effect::Nothing
            },
            Action::Resize(w, h) => Effect::Resize(w, h),
            Action::Tick => {
                self.tick();
                Effect::Nothing
            },
            Action::StoreTotalNumberOfCrates(n) => {
                self.store_total_number_of_crates(n);
                Effect::Nothing
            },
            Action::ScrollUp => {
                if self.mode == Mode::Popup {
                    self.popup_scroll_previous();
                } else {
                    self.search_results.scroll_previous(1);
                }
                Effect::Nothing
            },
            Action::ScrollDown => {
                if self.mode == Mode::Popup {
                    self.popup_scroll_next();
                } else {
                    self.search_results.scroll_next(1);
                }
                Effect::Nothing
            },
            Action::ScrollTop => {
                self.search_results.scroll_to_top();
                Effect::Nothing
            },
            Action::ScrollBottom => {
                self.search_results.scroll_to_bottom();
                Effect::Nothing
            },
            Action::ReloadData => self.reload_data(),
            Action::IncrementPage => self.increment_page(),
            Action::DecrementPage => self.decrement_page(),
            Action::EnterSearchInsertMode => {
                self.enter_search_insert_mode();
                Effect::Nothing
            },
            Action::EnterFilterInsertMode => {
                self.enter_filter_insert_mode();
                Effect::Nothing
            },
            Action::HandleFilterPromptChange => {
                self.handle_filter_prompt_change();
                Effect::Nothing
            },
            Action::EnterNormal => {
                self.enter_normal_mode();
                Effect::Nothing
            },
            Action::SubmitSearch => {
                self.submit_search();
                Effect::Nothing
            },
            Action::ToggleShowCrateInfo => self.toggle_show_crate_info(),
            Action::UpdateCurrentSelectionCrateInfo => self.update_current_selection_crate_info(),
            Action::ShowErrorPopup(err) => {
                self.set_error_flag(err);
                Effect::Nothing
            },
            Action::ShowInfoPopup(info) => {
                self.set_info_flag(info);
                Effect::Nothing
            },
            Action::ClosePopup => {
                self.clear_error_and_info_flags();
                Effect::Nothing
            },
            _ => Effect::Nothing,
        };
        Step { effect, follow_up }
    }
}


/// The error message of a search that found nothing.
pub open spec fn no_crates_message(search: Seq<char>) -> Seq<char> {
    "Could not find any crates with query `"@ + search + "`."@
}

/// The error message of a failed search request.
pub open spec fn api_error_message(detail: Seq<char>) -> Seq<char> {
    "API Client Error: "@ + detail
}

/// The error message of a registry client that could not be built.
pub open spec fn client_error_message(detail: Seq<char>) -> Seq<char> {
    "Error creating client: "@ + detail
}

/// The error message of a failed request for a crate's details.
pub open spec fn details_error_message(detail: Seq<char>) -> Seq<char> {
    "Error fetching crate details: "@ + detail
}

/// `a` is the action that shows `message` in an error popup.
pub open spec fn is_error_popup(a: Action, message: Seq<char>) -> bool {
    a matches Action::ShowErrorPopup(m) && m@ == message
}

/// A string of the text `prefix`, then `middle`, then `suffix`.
fn joined(prefix: &str, middle: &str, suffix: &str) -> (r: String)
    ensures
        r@ == prefix@ + middle@ + suffix@,
{
    let mut r = String::from_str(prefix);
    r.append(middle);
    r.append(suffix);
    r
}

impl App {
    /// Takes in how a search request for `search` ended, and returns the
    /// actions to queue. A page of results replaces the loaded crates, most
    /// downloaded first; a non-empty page queues the total, a tick and a move
    /// down in the table, an empty one an error popup. A failed request, or a
    /// registry client that could not be built, queues an error popup. In
    /// every case loading ends.
    pub fn crates_loaded(&mut self, search: &str, outcome: CratesOutcome) -> (actions: Vec<Action>)
        ensures
            final(self).input_state() == old(self).input_state(),
            match outcome {
                CratesOutcome::ClientFailed(e) => {
                    &&& final(self)@ == (AppView { loading: false, ..old(self)@ })
                    &&& actions@.len() == 1
                    &&& is_error_popup(actions@[0], client_error_message(e@))
                },
                CratesOutcome::RequestFailed(e) => {
                    &&& final(self)@ == (AppView { loading: false, ..old(self)@ })
                    &&& actions@.len() == 1
                    &&& is_error_popup(actions@[0], api_error_message(e@))
                },
                CratesOutcome::Page { crates, total } => {
                    &&& final(self)@ == (AppView {
                        crates: final(self)@.crates,
                        loading: false,
                        ..old(self)@
                    })
                    &&& final(self)@.crates.len() == crates@.len()
                    &&& downloads_non_increasing(final(self)@.crates)
                    &&& same_runs_per_count(final(self)@.crates, crates@)
                    &&& crates@.len() > 0 ==> actions@ == seq![
                        Action::StoreTotalNumberOfCrates(total),
                        Action::Tick,
                        Action::ScrollDown,
                    ]
                    &&& crates@.len() == 0 ==> actions@.len() == 1 && is_error_popup(
                        actions@[0],
                        no_crates_message(search@),
                    )
                },
            },
    {
        let mut actions: Vec<Action> = Vec::new();
        match outcome {
            CratesOutcome::ClientFailed(e) => {
                actions.push(Action::ShowErrorPopup(joined("Error creating client: ", e.as_str(), "")));
                proof {
                    assert(""@ =~= Seq::<char>::empty()) by {
                        reveal_strlit("");
                    }
                }
                self.loading = false;
            },
            CratesOutcome::RequestFailed(e) => {
                actions.push(Action::ShowErrorPopup(joined("API Client Error: ", e.as_str(), "")));
                proof {
                    assert(""@ =~= Seq::<char>::empty()) by {
                        reveal_strlit("");
                    }
                }
                self.loading = false;
            },
            CratesOutcome::Page { crates, total } => {
                let sorted = sort_by_downloads_desc(crates);
                let found = sorted.len() > 0;
                self.crates = sorted;
                if found {
                    actions.push(Action::StoreTotalNumberOfCrates(total));
                    actions.push(Action::Tick);
                    actions.push(Action::ScrollDown);
                } else {
                    actions.push(
                        Action::ShowErrorPopup(
                            joined("Could not find any crates with query `", search, "`."),
                        ),
                    );
                }
                self.loading = false;
            },
        }
        actions
    }

    /// Takes in how a request for a crate's details ended: the details are
    /// kept, or the action showing the error is returned. Loading ends.
    pub fn crate_details_loaded(&mut self, outcome: DetailsOutcome) -> (r: Option<Action>)
        ensures
            final(self).input_state() == old(self).input_state(),
            match outcome {
                DetailsOutcome::ClientFailed(e) => {
                    &&& final(self)@ == (AppView { loading: false, ..old(self)@ })
                    &&& r matches Some(a) && is_error_popup(a, e@)
                },
                DetailsOutcome::RequestFailed(e) => {
                    &&& final(self)@ == (AppView { loading: false, ..old(self)@ })
                    &&& r matches Some(a) && is_error_popup(a, details_error_message(e@))
                },
                DetailsOutcome::Fetched(c) => {
                    &&& final(self)@ == (AppView {
                        loading: false,
                        crate_info: Some(c),
                        ..old(self)@
                    })
                    &&& r is None
                },
            },
    {
        self.loading = false;
        match outcome {
            DetailsOutcome::ClientFailed(e) => Some(Action::ShowErrorPopup(e)),
            DetailsOutcome::RequestFailed(e) => {
                proof {
                    assert(""@ =~= Seq::<char>::empty()) by {
                        reveal_strlit("");
                    }
                }
                Some(Action::ShowErrorPopup(joined("Error fetching crate details: ", e.as_str(), "")))
            },
            DetailsOutcome::Fetched(c) => {
                self.crate_info = Some(c);
                None
            },
        }
    }
}


impl App {
    /// Hands a key to the text input in search and filter mode; in filter
    /// mode, returns the action that applies the changed filter. In the
    /// other modes the key does not reach the input.
    pub fn forward_key_events(&mut self, key: crossterm::event::KeyEvent) -> (r: Option<Action>)
        ensures
            old(self)@.mode == Mode::Search || old(self)@.mode == Mode::Filter
                ==> final(self).input_state() == input_after_key(old(self).input_state(), key),
            old(self)@.mode == Mode::Search ==> r is None && final(self)@ == (AppView {
                input: input_text(input_after_key(old(self).input_state(), key)),
                ..old(self)@
            }),
            old(self)@.mode == Mode::Filter ==> r == Some(Action::HandleFilterPromptChange)
                && final(self)@ == (AppView {
                input: input_text(input_after_key(old(self).input_state(), key)),
                ..old(self)@
            }),
            old(self)@.mode != Mode::Search && old(self)@.mode != Mode::Filter ==> r is None
                && final(self)@ == old(self)@ && final(self).input_state() == old(
                self,
            ).input_state(),
    {
        match self.mode {
            Mode::Search => {
                input_handle_key(&mut self.input, key);
                None
            },
            Mode::Filter => {
                input_handle_key(&mut self.input, key);
                Some(Action::HandleFilterPromptChange)
            },
            _ => None,
        }
    }

    /// Adds `key` to the keys pressed since the last key refresh and looks the
    /// sequence up, for the current mode, with `lookup` (the configured key
    /// bindings). When it names an action, the recorded keys are forgotten and
    /// the action is returned.
    pub fn handle_key_events_from_config<F>(
        &mut self,
        key: crossterm::event::KeyEvent,
        lookup: F,
    ) -> (r: Option<Action>)
        where
            F: Fn(Mode, &Vec<crossterm::event::KeyEvent>) -> Option<Action>,
        requires
            forall|m: Mode, v: &Vec<crossterm::event::KeyEvent>| lookup.requires((m, v)),
        ensures
            final(self).input_state() == old(self).input_state(),
            exists|v: &Vec<crossterm::event::KeyEvent>|
                v@ == old(self)@.key_events.push(key) && #[trigger] lookup.ensures(
                    (old(self)@.mode, v),
                    r,
                ),
            final(self)@ == (AppView {
                key_events: if r is Some {
                    Seq::empty()
                } else {
                    old(self)@.key_events.push(key)
                },
                ..old(self)@
            }),
    {
        self.last_tick_key_events.push(key);
        let action = lookup(self.mode, &self.last_tick_key_events);
        assert(lookup.ensures((old(self)@.mode, &self.last_tick_key_events), action));
        if action.is_some() {
            self.last_tick_key_events.clear();
        }
        action
    }

    /// Turns a terminal event into the actions to queue, in order. A key goes
    /// to the text input first (in filter mode this queues the action that
    /// applies the filter), then to the key bindings.
    pub fn handle_tui_event<F>(
        &mut self,
        e: Event,
        lookup: F,
    ) -> (actions: Vec<Action>)
        where
            F: Fn(Mode, &Vec<crossterm::event::KeyEvent>) -> Option<Action>,
        requires
            forall|m: Mode, v: &Vec<crossterm::event::KeyEvent>| lookup.requires((m, v)),
        ensures
            match e {
                Event::Quit => actions@ == seq![Action::Quit] && final(self)@ == old(self)@,
                Event::Tick => actions@ == seq![Action::Tick] && final(self)@ == old(self)@,
                Event::KeyRefresh => actions@ == seq![Action::KeyRefresh] && final(self)@
                    == old(self)@,
                Event::Render => actions@ == seq![Action::Render] && final(self)@ == old(self)@,
                Event::Resize(w, h) => actions@ == seq![Action::Resize(w, h)] && final(self)@
                    == old(self)@,
                Event::Other => actions@.len() == 0 && final(self)@ == old(self)@,
                Event::Key(key) => {
                    let filtering = old(self)@.mode == Mode::Filter;
                    let bound = if filtering {
                        actions@.drop_first()
                    } else {
                        actions@
                    };
                    &&& filtering ==> actions@.len() >= 1 && actions@[0]
                        == Action::HandleFilterPromptChange
                    &&& bound.len() <= 1
                    &&& exists|v: &Vec<crossterm::event::KeyEvent>, b: Option<Action>|
                        v@ == old(self)@.key_events.push(key) && #[trigger] lookup.ensures(
                            (old(self)@.mode, v),
                            b,
                        ) && (match b {
                            Some(a) => bound == seq![a],
                            None => bound.len() == 0,
                        }) && final(self)@.key_events == (if b is Some {
                            Seq::empty()
                        } else {
                            old(self)@.key_events.push(key)
                        })
                    &&& final(self)@ == (AppView {
                        input: if old(self)@.mode == Mode::Search || filtering {
                            input_text(input_after_key(old(self).input_state(), key))
                        } else {
                            old(self)@.input
                        },
                        key_events: final(self)@.key_events,
                        ..old(self)@
                    })
                    &&& final(self).input_state() == if old(self)@.mode == Mode::Search
                        || filtering {
                        input_after_key(old(self).input_state(), key)
                    } else {
                        old(self).input_state()
                    }
                },
            },
            !(e is Key) ==> final(self).input_state() == old(self).input_state(),
    {
        let mut actions: Vec<Action> = Vec::new();
        match e {
            Event::Quit => actions.push(Action::Quit),
            Event::Tick => actions.push(Action::Tick),
            Event::KeyRefresh => actions.push(Action::KeyRefresh),
            Event::Render => actions.push(Action::Render),
            Event::Resize(w, h) => actions.push(Action::Resize(w, h)),
            Event::Key(key) => {
                let forwarded = self.forward_key_events(key);
                match forwarded {
                    Some(a) => actions.push(a),
                    None => {},
                }
                let ghost mid = actions@;
                let bound = self.handle_key_events_from_config(key, lookup);
                match bound {
                    Some(a) => {
                        actions.push(a);
                        proof {
                            if mid.len() == 1 {
                                assert(actions@.drop_first() =~= seq![a]);
                            }
                        }
                    },
                    None => {
                        proof {
                            if mid.len() == 1 {
                                assert(actions@.drop_first() =~= Seq::<Action>::empty());
                            }
                        }
                    },
                }
            },
            Event::Other => {},
        }
        actions
    }
}


/// The number, counted from one over all pages, of the crate in the selected
/// row; zero with no selection.
pub open spec fn position_number(page: u64, page_size: u64, selected: Option<usize>) -> int {
    match selected {
        Some(n) => (page - 1) * page_size + n + 1,
        None => 0,
    }
}

impl App {
    /// The number, counted from one over all pages, of the crate in the
    /// selected row, as the prompt shows it; zero with no selection.
    pub fn selected_position(&self) -> (r: u128)
        ensures
            r == position_number(self@.page, self@.page_size, self@.results.selected),
    {
        let page = self.paging.page();
        let page_size = self.paging.page_size();
        match self.search_results.selected() {
            Some(n) => {
                let before = (page - 1) as u128;
                assert(before * (page_size as u128) <= 0xffff_ffff_ffff_ffff * 25) by (nonlinear_arith)
                    requires
                        before <= 0xffff_ffff_ffff_ffff,
                        page_size == 25,
                ;
                before * (page_size as u128) + (n as u128) + 1
            },
            None => 0,
        }
    }

    /// The current page number.
    pub fn page(&self) -> (r: u64)
        ensures
            r == self@.page,
            r >= 1,
    {
        self.paging.page()
    }

    /// The number of crates requested per page.
    pub fn page_size(&self) -> (r: u64)
        ensures
            r == self@.page_size,
            r == PAGE_SIZE,
    {
        self.paging.page_size()
    }

    /// The total number of crates matching the search, once known.
    pub fn total_num_crates(&self) -> (r: Option<u64>)
        ensures
            r == self@.total_num_crates,
    {
        self.total_num_crates
    }

    /// Whether a request is under way.
    pub fn loading(&self) -> (r: bool)
        ensures
            r == self@.loading,
    {
        self.loading
    }

    /// The current mode.
    pub fn mode(&self) -> (r: Mode)
        ensures
            r == self@.mode,
    {
        self.mode
    }

    /// The current search query.
    pub fn search(&self) -> (r: &String)
        ensures
            r@ == self@.search,
    {
        &self.search
    }

    /// The current filter.
    pub fn filter(&self) -> (r: &String)
        ensures
            r@ == self@.filter,
    {
        &self.filter
    }

    /// The text input.
    pub fn input(&self) -> (r: &tui_input::Input)
        ensures
            input_text(*r) == self@.input,
    {
        &self.input
    }

    /// The text in the input.
    pub fn input_value(&self) -> (r: String)
        ensures
            r@ == self@.input,
    {
        input_value(&self.input)
    }

    /// The crates of the current page, as loaded.
    pub fn crates(&self) -> (r: &Vec<CrateSummary>)
        ensures
            r@ == self@.crates,
    {
        &self.crates
    }

    /// The results table.
    pub fn search_results(&self) -> (r: &SearchResults)
        ensures
            r@ == self@.results,
    {
        &self.search_results
    }

    /// The details of the crate last fetched, if kept.
    pub fn crate_info(&self) -> (r: &Option<CrateSummary>)
        ensures
            *r == self@.crate_info,
    {
        &self.crate_info
    }

    /// The crate details to draw: those kept, while the details pane is shown.
    pub fn shown_crate_info(&self) -> (r: Option<&CrateSummary>)
        ensures
            match r {
                Some(c) => self@.show_crate_info && self@.crate_info == Some(*c),
                None => !self@.show_crate_info || self@.crate_info is None,
            },
    {
        if self.show_crate_info {
            match &self.crate_info {
                Some(c) => Some(c),
                None => None,
            }
        } else {
            None
        }
    }

    /// Whether the details pane is shown.
    pub fn show_crate_info(&self) -> (r: bool)
        ensures
            r == self@.show_crate_info,
    {
        self.show_crate_info
    }

    /// The error shown in a popup, if any.
    pub fn error_message(&self) -> (r: &Option<String>)
        ensures
            opt_text(*r) == self@.error_message,
    {
        &self.error_message
    }

    /// The message shown in a popup, if any.
    pub fn info_message(&self) -> (r: &Option<String>)
        ensures
            opt_text(*r) == self@.info_message,
    {
        &self.info_message
    }

    /// How far the popup is scrolled.
    pub fn popup_scroll_index(&self) -> (r: usize)
        ensures
            r == self@.popup_scroll_index,
    {
        self.popup_scroll_index
    }

    /// The keys pressed since the last key refresh.
    pub fn last_tick_key_events(&self) -> (r: &Vec<crossterm::event::KeyEvent>)
        ensures
            r@ == self@.key_events,
    {
        &self.last_tick_key_events
    }
}

} // verus!
