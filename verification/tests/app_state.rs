use crates_tui::action::Action;
use crates_tui::app::{App, CratesOutcome, DetailsOutcome, Effect, Event, SortOrder};
use crates_tui::mode::Mode;
use crates_tui::summary::CrateSummary;
use crossterm::event::{KeyCode, KeyEvent, KeyModifiers};

fn krate(name: &str, description: Option<&str>, downloads: u64) -> CrateSummary {
    CrateSummary {
        name: name.to_string(),
        description: description.map(|d| d.to_string()),
        downloads,
        max_version: "1.0.0".to_string(),
    }
}

fn names(crates: &[CrateSummary]) -> Vec<String> {
    crates.iter().map(|c| c.name.clone()).collect()
}

fn loaded(crates: Vec<CrateSummary>, total: u64) -> App {
    let mut app = App::new();
    let actions = app.crates_loaded("q", CratesOutcome::Page { crates, total });
    for a in actions {
        app.handle_action(a);
    }
    app
}

fn no_binding(_m: Mode, _k: &Vec<KeyEvent>) -> Option<Action> {
    None
}

#[test]
fn new_app_starts_on_first_page_in_search_mode() {
    let app = App::new();
    assert_eq!(app.page(), 1);
    assert_eq!(app.page_size(), 25);
    assert_eq!(app.mode(), Mode::Search);
    assert_eq!(app.total_num_crates(), None);
    assert!(!app.loading());
    assert!(!app.should_quit());
    assert_eq!(app.search(), "");
    assert_eq!(app.filter(), "");
    assert_eq!(app.input_value(), "");
    assert!(app.crates().is_empty());
    assert_eq!(app.search_results().selected(), None);
    assert_eq!(app.selected_position(), 0);
    assert!(app.error_message().is_none());
    assert!(app.info_message().is_none());
    assert_eq!(app.popup_scroll_index(), 0);
}

#[test]
fn quit_action_stops_the_app() {
    let mut app = App::new();
    let step = app.handle_action(Action::Quit);
    assert!(matches!(step.effect, Effect::Nothing));
    assert_eq!(step.follow_up, None);
    assert!(app.should_quit());
    assert_eq!(app.mode(), Mode::Quit);
}

#[test]
fn render_and_resize_ask_for_terminal_work() {
    let mut app = App::new();
    let step = app.handle_action(Action::Render);
    assert!(matches!(step.effect, Effect::Draw));
    assert_eq!(step.follow_up, None);
    let step = app.handle_action(Action::Resize(80, 24));
    assert!(matches!(step.effect, Effect::Resize(80, 24)));
    assert_eq!(step.follow_up, Some(Action::Render));
}

#[test]
fn increment_page_needs_a_known_total() {
    let mut app = App::new();
    let step = app.handle_action(Action::IncrementPage);
    assert!(matches!(step.effect, Effect::Nothing));
    assert_eq!(app.page(), 1);
}

#[test]
fn increment_page_moves_forward_and_reloads() {
    let mut app = App::new();
    app.handle_action(Action::StoreTotalNumberOfCrates(60));
    assert_eq!(app.total_num_crates(), Some(60));
    let step = app.handle_action(Action::IncrementPage);
    assert_eq!(app.page(), 2);
    assert!(app.loading());
    match step.effect {
        Effect::Reload(q) => {
            assert_eq!(q.search, "");
            assert_eq!(q.page, 2);
            assert_eq!(q.page_size, 25);
            assert_eq!(q.sort, SortOrder::Relevance);
            assert_eq!(q.client.user_agent, "crates-tui (crates-tui@kdheepak.com)");
            assert_eq!(q.client.rate_limit_ms, 1000);
        }
        _ => panic!("expected a reload"),
    }
    // 60 / 25 + 1 == 3 is the last page
    app.handle_action(Action::IncrementPage);
    assert_eq!(app.page(), 3);
    let step = app.handle_action(Action::IncrementPage);
    assert!(matches!(step.effect, Effect::Nothing));
    assert_eq!(app.page(), 3);
}

#[test]
fn decrement_page_stops_at_first_page() {
    let mut app = App::new();
    let step = app.handle_action(Action::DecrementPage);
    assert!(matches!(step.effect, Effect::Nothing));
    assert_eq!(app.page(), 1);
    app.handle_action(Action::StoreTotalNumberOfCrates(100));
    app.handle_action(Action::IncrementPage);
    assert_eq!(app.page(), 2);
    let step = app.handle_action(Action::DecrementPage);
    assert_eq!(app.page(), 1);
    match step.effect {
        Effect::Reload(q) => assert_eq!(q.page, 1),
        _ => panic!("expected a reload"),
    }
}

#[test]
fn popup_scroll_saturates_at_top() {
    let mut app = App::new();
    app.handle_action(Action::ShowInfoPopup("hello".to_string()));
    assert_eq!(app.mode(), Mode::Popup);
    let step = app.handle_action(Action::ScrollUp);
    assert_eq!(app.popup_scroll_index(), 0);
    assert_eq!(step.follow_up, Some(Action::UpdateCurrentSelectionCrateInfo));
    app.handle_action(Action::ScrollDown);
    app.handle_action(Action::ScrollDown);
    assert_eq!(app.popup_scroll_index(), 2);
    app.handle_action(Action::ScrollUp);
    assert_eq!(app.popup_scroll_index(), 1);
}

#[test]
fn popups_show_and_close() {
    let mut app = App::new();
    app.handle_action(Action::ShowErrorPopup("boom".to_string()));
    assert_eq!(app.mode(), Mode::Popup);
    assert_eq!(app.error_message().as_deref(), Some("boom"));
    app.handle_action(Action::ShowInfoPopup("note".to_string()));
    assert_eq!(app.info_message().as_deref(), Some("note"));
    app.handle_action(Action::ClosePopup);
    assert_eq!(app.mode(), Mode::Search);
    assert!(app.error_message().is_none());
    assert!(app.info_message().is_none());
}

#[test]
fn loaded_page_is_sorted_by_downloads_and_queues_follow_ups() {
    let mut app = App::new();
    let crates = vec![
        krate("a", None, 5),
        krate("b", None, 50),
        krate("c", None, 5),
        krate("d", None, 500),
    ];
    let actions = app.crates_loaded("q", CratesOutcome::Page { crates, total: 1234 });
    assert_eq!(
        actions,
        vec![Action::StoreTotalNumberOfCrates(1234), Action::Tick, Action::ScrollDown]
    );
    assert_eq!(names(app.crates()), vec!["d", "b", "a", "c"]);
    assert!(!app.loading());
}

#[test]
fn loaded_page_then_follow_ups_select_first_row() {
    let app = loaded(vec![krate("x", None, 1), krate("y", None, 2)], 2);
    assert_eq!(app.total_num_crates(), Some(2));
    assert_eq!(names(&app.search_results().crates), vec!["y", "x"]);
    assert_eq!(app.search_results().selected(), Some(0));
    assert_eq!(app.selected_position(), 1);
}

#[test]
fn empty_page_reports_no_crates() {
    let mut app = App::new();
    let actions = app.crates_loaded("zzz", CratesOutcome::Page { crates: vec![], total: 0 });
    assert_eq!(
        actions,
        vec![Action::ShowErrorPopup("Could not find any crates with query `zzz`.".to_string())]
    );
    assert!(!app.loading());
}

#[test]
fn failed_requests_report_errors() {
    let mut app = App::new();
    app.handle_action(Action::ReloadData);
    assert!(app.loading());
    let actions = app.crates_loaded("q", CratesOutcome::ClientFailed("no tls".to_string()));
    assert_eq!(actions, vec![Action::ShowErrorPopup("Error creating client: no tls".to_string())]);
    assert!(!app.loading());
    app.handle_action(Action::ReloadData);
    assert!(app.loading());
    let actions = app.crates_loaded("q", CratesOutcome::RequestFailed("timeout".to_string()));
    assert_eq!(actions, vec![Action::ShowErrorPopup("API Client Error: timeout".to_string())]);
    assert!(!app.loading());
}

#[test]
fn details_outcomes() {
    let mut app = App::new();
    let r = app.crate_details_loaded(DetailsOutcome::ClientFailed("bad".to_string()));
    assert_eq!(r, Some(Action::ShowErrorPopup("bad".to_string())));
    let r = app.crate_details_loaded(DetailsOutcome::RequestFailed("404".to_string()));
    assert_eq!(r, Some(Action::ShowErrorPopup("Error fetching crate details: 404".to_string())));
    let r = app.crate_details_loaded(DetailsOutcome::Fetched(krate("serde", None, 9)));
    assert_eq!(r, None);
    assert_eq!(app.crate_info().as_ref().map(|c| c.name.as_str()), Some("serde"));
    assert!(!app.loading());
}

#[test]
fn table_scrolls_wrap_around() {
    let mut app = loaded(vec![krate("a", None, 3), krate("b", None, 2), krate("c", None, 1)], 3);
    assert_eq!(app.search_results().selected(), Some(0));
    let step = app.handle_action(Action::ScrollUp);
    assert_eq!(step.follow_up, Some(Action::UpdateCurrentSelectionCrateInfo));
    assert_eq!(app.search_results().selected(), Some(2));
    app.handle_action(Action::ScrollDown);
    assert_eq!(app.search_results().selected(), Some(0));
    app.handle_action(Action::ScrollBottom);
    assert_eq!(app.search_results().selected(), Some(2));
    assert_eq!(app.search_results().scroll_position, 2);
    app.handle_action(Action::ScrollDown);
    assert_eq!(app.search_results().selected(), Some(0));
    app.handle_action(Action::ScrollDown);
    app.handle_action(Action::ScrollTop);
    assert_eq!(app.search_results().selected(), Some(0));
}

#[test]
fn scrolling_an_empty_table_selects_nothing() {
    let mut app = App::new();
    app.handle_action(Action::ScrollDown);
    assert_eq!(app.search_results().selected(), None);
    app.handle_action(Action::ScrollBottom);
    assert_eq!(app.search_results().selected(), None);
    app.handle_action(Action::ScrollTop);
    assert_eq!(app.search_results().selected(), None);
}

#[test]
fn filter_keeps_crates_matching_every_word() {
    let mut app = loaded(
        vec![
            krate("Serde", Some("A serialization framework"), 10),
            krate("tokio", Some("An async runtime"), 9),
            krate("serde_json", Some("JSON support for serde"), 8),
        ],
        3,
    );
    app.handle_action(Action::EnterFilterInsertMode);
    assert_eq!(app.mode(), Mode::Filter);
    for c in "serde json".chars() {
        let key = KeyEvent::new(KeyCode::Char(c), KeyModifiers::NONE);
        let actions = app.handle_tui_event(Event::Key(key), no_binding);
        assert_eq!(actions, vec![Action::HandleFilterPromptChange]);
    }
    assert_eq!(app.input_value(), "serde json");
    app.handle_action(Action::HandleFilterPromptChange);
    assert_eq!(app.filter(), "serde json");
    assert_eq!(app.search_results().selected(), None);
    app.handle_action(Action::Tick);
    assert_eq!(names(&app.search_results().crates), vec!["serde_json"]);
}

#[test]
fn filter_lower_cases_names_and_descriptions() {
    let mut app = loaded(
        vec![
            krate("Serde", None, 10),
            krate("tokio", Some("ASYNC runtime"), 9),
            krate("rand", None, 8),
        ],
        3,
    );
    app.handle_action(Action::EnterFilterInsertMode);
    for c in "serde".chars() {
        app.handle_tui_event(Event::Key(KeyEvent::new(KeyCode::Char(c), KeyModifiers::NONE)), no_binding);
    }
    app.handle_action(Action::HandleFilterPromptChange);
    app.handle_action(Action::Tick);
    assert_eq!(names(&app.search_results().crates), vec!["Serde"]);
}

#[test]
fn upper_case_filter_words_match_nothing() {
    let mut app = loaded(vec![krate("Serde", None, 10), krate("tokio", None, 9)], 2);
    app.handle_action(Action::EnterFilterInsertMode);
    app.handle_tui_event(
        Event::Key(KeyEvent::new(KeyCode::Char('S'), KeyModifiers::SHIFT)),
        no_binding,
    );
    app.handle_action(Action::HandleFilterPromptChange);
    assert_eq!(app.filter(), "S");
    app.handle_action(Action::Tick);
    assert!(app.search_results().crates.is_empty());
}

#[test]
fn blank_filter_shows_every_crate() {
    let mut app = loaded(vec![krate("a", None, 3), krate("b", None, 2)], 2);
    app.handle_action(Action::EnterFilterInsertMode);
    app.handle_tui_event(Event::Key(KeyEvent::new(KeyCode::Char(' '), KeyModifiers::NONE)), no_binding);
    app.handle_action(Action::HandleFilterPromptChange);
    app.handle_action(Action::Tick);
    assert_eq!(names(&app.search_results().crates), vec!["a", "b"]);
}

#[test]
fn submit_search_takes_the_typed_query_and_reloads() {
    let mut app = App::new();
    for c in "ratatui".chars() {
        let actions = app.handle_tui_event(
            Event::Key(KeyEvent::new(KeyCode::Char(c), KeyModifiers::NONE)),
            no_binding,
        );
        assert!(actions.is_empty());
    }
    let step = app.handle_action(Action::SubmitSearch);
    assert_eq!(step.follow_up, Some(Action::ReloadData));
    assert_eq!(app.search(), "ratatui");
    assert_eq!(app.filter(), "");
    assert_eq!(app.mode(), Mode::Picker);
    let step = app.handle_action(Action::ReloadData);
    match step.effect {
        Effect::Reload(q) => {
            assert_eq!(q.search, "ratatui");
            assert_eq!(q.page, 1);
            assert_eq!(q.page_size, 25);
        }
        _ => panic!("expected a reload"),
    }
}

#[test]
fn search_mode_round_trip_keeps_the_query() {
    let mut app = App::new();
    for c in "abc".chars() {
        app.handle_tui_event(Event::Key(KeyEvent::new(KeyCode::Char(c), KeyModifiers::NONE)), no_binding);
    }
    app.handle_action(Action::SubmitSearch);
    app.handle_action(Action::EnterSearchInsertMode);
    assert_eq!(app.input_value(), "abc");
    app.handle_action(Action::SubmitSearch);
    assert_eq!(app.search(), "abc");
}

#[test]
fn keys_do_not_reach_the_input_in_picker_mode() {
    let mut app = App::new();
    app.handle_action(Action::EnterNormal);
    assert_eq!(app.mode(), Mode::Picker);
    let actions = app.handle_tui_event(
        Event::Key(KeyEvent::new(KeyCode::Char('x'), KeyModifiers::NONE)),
        no_binding,
    );
    assert!(actions.is_empty());
    assert_eq!(app.input_value(), "");
    assert_eq!(app.last_tick_key_events().len(), 1);
    app.handle_action(Action::KeyRefresh);
    assert!(app.last_tick_key_events().is_empty());
}

#[test]
fn key_bindings_fire_and_clear_the_key_sequence() {
    let mut app = App::new();
    app.handle_action(Action::EnterNormal);
    let lookup = |m: Mode, keys: &Vec<KeyEvent>| {
        if m == Mode::Picker
            && keys.len() == 2
            && keys[0].code == KeyCode::Char('g')
            && keys[1].code == KeyCode::Char('g')
        {
            Some(Action::ScrollTop)
        } else {
            None
        }
    };
    let g = KeyEvent::new(KeyCode::Char('g'), KeyModifiers::NONE);
    let actions = app.handle_tui_event(Event::Key(g), lookup);
    assert!(actions.is_empty());
    assert_eq!(app.last_tick_key_events().len(), 1);
    let actions = app.handle_tui_event(Event::Key(g), lookup);
    assert_eq!(actions, vec![Action::ScrollTop]);
    assert!(app.last_tick_key_events().is_empty());
}

#[test]
fn filter_mode_key_queues_prompt_change_then_binding() {
    let mut app = App::new();
    app.handle_action(Action::EnterFilterInsertMode);
    let actions = app.handle_tui_event(
        Event::Key(KeyEvent::new(KeyCode::Esc, KeyModifiers::NONE)),
        |_m: Mode, _k: &Vec<KeyEvent>| Some(Action::EnterNormal),
    );
    assert_eq!(actions, vec![Action::HandleFilterPromptChange, Action::EnterNormal]);
}

#[test]
fn simple_terminal_events_map_to_actions() {
    let mut app = App::new();
    assert_eq!(app.handle_tui_event(Event::Quit, no_binding), vec![Action::Quit]);
    assert_eq!(app.handle_tui_event(Event::Tick, no_binding), vec![Action::Tick]);
    assert_eq!(app.handle_tui_event(Event::KeyRefresh, no_binding), vec![Action::KeyRefresh]);
    assert_eq!(app.handle_tui_event(Event::Render, no_binding), vec![Action::Render]);
    assert_eq!(app.handle_tui_event(Event::Resize(3, 4), no_binding), vec![Action::Resize(3, 4)]);
    assert!(app.handle_tui_event(Event::Other, no_binding).is_empty());
}

#[test]
fn enter_normal_selects_first_row_when_nothing_selected() {
    let mut app = loaded(vec![krate("a", None, 3), krate("b", None, 2)], 2);
    app.handle_action(Action::HandleFilterPromptChange);
    assert_eq!(app.search_results().selected(), None);
    app.handle_action(Action::EnterNormal);
    assert_eq!(app.search_results().selected(), Some(0));
}

#[test]
fn toggling_details_fetches_the_selected_crate() {
    let mut app = loaded(vec![krate("alpha", None, 3), krate("beta", None, 2)], 2);
    app.handle_action(Action::ScrollDown);
    assert_eq!(app.selected_crate_name(), Some("beta".to_string()));
    let step = app.handle_action(Action::ToggleShowCrateInfo);
    assert!(app.show_crate_info());
    match step.effect {
        Effect::FetchDetails { name, client } => {
            assert_eq!(name, "beta");
            assert_eq!(client.user_agent, "crates-tui (crates-tui@kdheepak.com)");
            assert_eq!(client.rate_limit_ms, 1000);
        }
        _ => panic!("expected a details request"),
    }
    app.crate_details_loaded(DetailsOutcome::Fetched(krate("beta", None, 2)));
    assert!(app.crate_info().is_some());
    let step = app.handle_action(Action::ToggleShowCrateInfo);
    assert!(matches!(step.effect, Effect::Nothing));
    assert!(!app.show_crate_info());
    assert!(app.crate_info().is_none());
}

#[test]
fn details_need_a_named_selection() {
    let mut app = loaded(vec![krate("", None, 3)], 1);
    assert_eq!(app.selected_crate_name(), None);
    let step = app.handle_action(Action::ToggleShowCrateInfo);
    assert!(matches!(step.effect, Effect::Nothing));
    let mut empty = App::new();
    let step = empty.handle_action(Action::ToggleShowCrateInfo);
    assert!(matches!(step.effect, Effect::Nothing));
}

#[test]
fn filter_mode_hides_details() {
    let mut app = loaded(vec![krate("alpha", None, 3)], 1);
    app.handle_action(Action::ToggleShowCrateInfo);
    assert!(app.show_crate_info());
    app.handle_action(Action::EnterFilterInsertMode);
    assert!(!app.show_crate_info());
}

#[test]
fn selected_position_counts_over_pages() {
    let mut crates = Vec::new();
    for i in 0..5 {
        crates.push(krate(&format!("c{i}"), None, 100 - i));
    }
    let mut app = loaded(crates, 80);
    app.handle_action(Action::IncrementPage);
    app.handle_action(Action::ScrollDown);
    app.handle_action(Action::ScrollDown);
    assert_eq!(app.page(), 2);
    // the reload cleared the selection, so the first move selected row 0
    assert_eq!(app.search_results().selected(), Some(1));
    assert_eq!(app.selected_position(), 25 + 1 + 1);
}

#[test]
fn reload_clears_selection_and_details() {
    let mut app = loaded(vec![krate("alpha", None, 3)], 1);
    app.crate_details_loaded(DetailsOutcome::Fetched(krate("alpha", None, 3)));
    let step = app.handle_action(Action::ReloadData);
    assert!(matches!(step.effect, Effect::Reload(_)));
    assert_eq!(app.search_results().selected(), None);
    assert!(app.crate_info().is_none());
    assert!(app.loading());
}

#[test]
fn unhandled_actions_change_nothing() {
    let mut app = App::new();
    let step = app.handle_action(Action::Help);
    assert!(matches!(step.effect, Effect::Nothing));
    assert_eq!(step.follow_up, None);
    assert_eq!(app.mode(), Mode::Search);
}

#[test]
fn popup_scroll_down_then_up_returns() {
    let mut app = App::new();
    app.handle_action(Action::ShowErrorPopup("long text".to_string()));
    app.handle_action(Action::ScrollDown);
    app.handle_action(Action::ScrollDown);
    app.handle_action(Action::ScrollDown);
    app.handle_action(Action::ScrollUp);
    app.handle_action(Action::ScrollUp);
    app.handle_action(Action::ScrollUp);
    assert_eq!(app.popup_scroll_index(), 0);
    assert_eq!(app.mode(), Mode::Popup);
}

#[test]
fn table_scroll_down_then_up_returns() {
    let mut app = loaded(vec![krate("a", None, 3), krate("b", None, 2), krate("c", None, 1)], 3);
    app.handle_action(Action::ScrollBottom);
    app.handle_action(Action::ScrollDown);
    app.handle_action(Action::ScrollUp);
    assert_eq!(app.search_results().selected(), Some(2));
}

#[test]
fn filter_mode_round_trip_keeps_the_filter() {
    let mut app = App::new();
    app.handle_action(Action::EnterFilterInsertMode);
    for c in "io".chars() {
        app.handle_tui_event(Event::Key(KeyEvent::new(KeyCode::Char(c), KeyModifiers::NONE)), no_binding);
    }
    app.handle_action(Action::HandleFilterPromptChange);
    app.handle_action(Action::EnterNormal);
    app.handle_action(Action::EnterFilterInsertMode);
    assert_eq!(app.input_value(), "io");
    app.handle_action(Action::HandleFilterPromptChange);
    assert_eq!(app.filter(), "io");
}

#[test]
fn details_are_drawn_only_while_shown() {
    let mut app = loaded(vec![krate("alpha", None, 3)], 1);
    app.crate_details_loaded(DetailsOutcome::Fetched(krate("alpha", None, 3)));
    assert!(app.shown_crate_info().is_none());
    app.handle_action(Action::ToggleShowCrateInfo);
    app.crate_details_loaded(DetailsOutcome::Fetched(krate("alpha", None, 3)));
    assert_eq!(app.shown_crate_info().map(|c| c.name.as_str()), Some("alpha"));
}

#[test]
fn cursor_keys_move_where_typing_goes() {
    let mut app = App::new();
    for code in [KeyCode::Char('a'), KeyCode::Char('c'), KeyCode::Left, KeyCode::Char('b')] {
        app.handle_tui_event(Event::Key(KeyEvent::new(code, KeyModifiers::NONE)), no_binding);
    }
    assert_eq!(app.input_value(), "abc");
    assert_eq!(app.input().cursor(), 2);
    app.handle_action(Action::KeyRefresh);
    app.handle_action(Action::StoreTotalNumberOfCrates(3));
    assert_eq!(app.input().cursor(), 2);
    app.handle_action(Action::EnterSearchInsertMode);
    assert_eq!(app.input_value(), "");
    assert_eq!(app.input().cursor(), 0);
}
