use crates_tui::app::{App, Event, Key, KeyCode, LoadingState, Request, Tab};
use crates_tui::records::{Crate, Repository};

fn package(name: &str) -> Crate {
    Crate {
        name: name.to_string(),
        description: None,
        downloads: 10,
        created_at: "2016-01-01T00:00:00Z".to_string(),
        updated_at: "2016-01-01T00:00:00Z".to_string(),
        documentation: Some("https://docs.rs/x".to_string()),
        repository: Some("https://github.com/x/x".to_string()),
        max_version: "1.0.0".to_string(),
        license: Some("MIT".to_string()),
        keywords: Some(vec!["tui".to_string()]),
        categories: None,
    }
}

fn repo(name: &str) -> Repository {
    Repository {
        name: name.to_string(),
        full_name: format!("someone/{name}"),
        html_url: format!("https://github.com/someone/{name}"),
        description: None,
        stargazers_count: 1,
        forks_count: 0,
        language: Some("Rust".to_string()),
    }
}

fn key(code: KeyCode) -> Key {
    Key { code, ctrl: false }
}

fn ch(c: char) -> Key {
    key(KeyCode::Char(c))
}

fn type_text(app: &mut App, text: &str) {
    for c in text.chars() {
        assert!(app.handle_key_event(ch(c)).is_none());
    }
}

#[test]
fn new_app_starts_on_search() {
    let app = App::new();
    assert!(app.running);
    assert_eq!(app.current_tab, Tab::Search);
    assert!(app.crates.is_empty() && app.repos.is_empty() && app.compared_crates.is_empty());
    assert_eq!(app.selected_index, 0);
    assert!(matches!(app.loading_state, LoadingState::NotLoading));
    assert_eq!(app.trend_period, "weekly");
    assert!(!app.show_detail && !app.input_mode && !app.compare_input_mode);
}

#[test]
fn startup_load_of_recent_packages() {
    let mut app = App::new();
    assert!(matches!(app.load_recent_crates(), Request::RecentCrates));
    assert!(matches!(app.loading_state, LoadingState::Loading));
    app.crates_loaded(Ok(vec![package("a"), package("b")]));
    assert!(matches!(app.loading_state, LoadingState::Loaded));
    assert_eq!(app.crates.len(), 2);
}

#[test]
fn failed_fetch_shows_its_error() {
    let mut app = App::new();
    app.load_recent_crates();
    app.crates_loaded(Err("network down".to_string()));
    assert!(matches!(&app.loading_state, LoadingState::Error(m) if m == "network down"));
    app.repos_loaded(Err("bad body".to_string()));
    assert!(matches!(&app.loading_state, LoadingState::Error(m) if m == "bad body"));
}

#[test]
fn five_tabs_forward_return_to_search() {
    let mut app = App::new();
    let order = [Tab::Recent, Tab::Trending, Tab::Compare, Tab::Help, Tab::Search];
    for t in order {
        app.handle_key_event(key(KeyCode::Tab));
        assert_eq!(app.current_tab, t);
    }
}

#[test]
fn back_tab_from_search_wraps_to_help() {
    let mut app = App::new();
    app.prev_tab();
    assert_eq!(app.current_tab, Tab::Help);
    app.handle_key_event(key(KeyCode::BackTab));
    assert_eq!(app.current_tab, Tab::Compare);
}

#[test]
fn tab_switch_to_empty_list_marks_loading_and_tick_fetches() {
    let mut app = App::new();
    app.next_tab();
    assert_eq!(app.current_tab, Tab::Recent);
    assert!(matches!(app.loading_state, LoadingState::Loading));
    assert!(matches!(app.handle_event(Event::Tick), Some(Request::RecentCrates)));
    app.next_tab();
    assert_eq!(app.current_tab, Tab::Trending);
    assert!(matches!(app.tick(), Some(Request::TrendingRepos(p)) if p == "weekly"));
    app.repos_loaded(Ok(vec![repo("x")]));
    assert!(app.tick().is_none());
}

#[test]
fn tick_without_loading_asks_nothing() {
    let mut app = App::new();
    assert!(app.tick().is_none());
    app.loading_state = LoadingState::Loading;
    assert!(app.tick().is_none());
    app.search_query = "tui".to_string();
    assert!(matches!(app.tick(), Some(Request::SearchCrates(q)) if q == "tui"));
}

#[test]
fn selection_on_empty_list_stays_at_zero() {
    let mut app = App::new();
    app.crates = vec![package("a"), package("b"), package("c")];
    app.next_item();
    app.next_item();
    assert_eq!(app.selected_index, 2);
    app.jump_to_tab(Tab::Compare);
    assert_eq!(app.selected_index, 0);
    app.next_item();
    assert_eq!(app.selected_index, 0);
    app.prev_item();
    assert_eq!(app.selected_index, 0);
    app.add_compared_crate(package("x"));
    app.add_compared_crate(package("y"));
    app.prev_item();
    assert_eq!(app.selected_index, 1);
}

#[test]
fn selection_wraps_both_ways() {
    let mut app = App::new();
    app.crates = vec![package("a"), package("b"), package("c")];
    app.handle_key_event(key(KeyCode::Up));
    assert_eq!(app.selected_index, 2);
    app.handle_key_event(ch('j'));
    assert_eq!(app.selected_index, 0);
    app.handle_key_event(ch('k'));
    assert_eq!(app.selected_index, 2);
    app.handle_key_event(key(KeyCode::Down));
    assert_eq!(app.selected_index, 0);
}

#[test]
fn adding_the_same_name_twice_keeps_one_entry() {
    let mut app = App::new();
    app.add_compared_crate(package("serde"));
    let mut again = package("serde");
    again.downloads = 99;
    app.add_compared_crate(again);
    assert_eq!(app.compared_crates.len(), 1);
    assert_eq!(app.compared_crates[0].details.downloads, 10);
    assert!(app.compared_crates[0].security.safe);
    assert!(app.compared_crates[0].security.warnings.is_empty());
}

#[test]
fn compared_entry_carries_its_warnings() {
    let mut app = App::new();
    let mut c = package("toko");
    c.license = None;
    app.add_compared_crate(c);
    let s = &app.compared_crates[0].security;
    assert!(!s.safe);
    assert_eq!(
        s.warnings,
        vec![
            "No license specified".to_string(),
            "Name similar to popular package 'tokio'".to_string()
        ]
    );
}

#[test]
fn removing_the_only_entry_empties_the_set() {
    let mut app = App::new();
    app.add_compared_crate(package("serde"));
    app.jump_to_tab(Tab::Compare);
    app.handle_key_event(ch('d'));
    assert!(app.compared_crates.is_empty());
    assert_eq!(app.selected_index, 0);
    app.remove_from_comparison();
    app.next_item();
    assert_eq!(app.selected_index, 0);
}

#[test]
fn removing_the_last_entry_moves_selection_back() {
    let mut app = App::new();
    for n in ["a", "b", "c"] {
        app.add_compared_crate(package(n));
    }
    app.jump_to_tab(Tab::Compare);
    app.prev_item();
    assert_eq!(app.selected_index, 2);
    app.remove_from_comparison();
    assert_eq!(app.compared_crates.len(), 2);
    assert_eq!(app.selected_index, 1);
    app.selected_index = 0;
    app.remove_from_comparison();
    assert_eq!(app.compared_crates[0].details.name, "b");
    assert_eq!(app.selected_index, 0);
}

#[test]
fn remove_outside_compare_tab_does_nothing() {
    let mut app = App::new();
    app.add_compared_crate(package("a"));
    app.remove_from_comparison();
    assert_eq!(app.compared_crates.len(), 1);
}

#[test]
fn add_key_asks_for_details_of_selected_package() {
    let mut app = App::new();
    app.crates = vec![package("a"), package("b")];
    app.next_item();
    let r = app.handle_key_event(ch('a'));
    assert!(matches!(r, Some(Request::SelectedDetails(n)) if n == "b"));
    let mut full = package("b");
    full.description = Some("full record".to_string());
    app.finish_add_to_comparison(Ok(full));
    assert_eq!(app.compared_crates.len(), 1);
    assert_eq!(app.compared_crates[0].details.description.as_deref(), Some("full record"));
    assert!(app.handle_key_event(ch('a')).is_none());
}

#[test]
fn failed_detail_fetch_falls_back_to_listed_record() {
    let mut app = App::new();
    app.crates = vec![package("a")];
    assert!(app.add_to_comparison().is_some());
    app.finish_add_to_comparison(Err("timeout".to_string()));
    assert_eq!(app.compared_crates.len(), 1);
    assert_eq!(app.compared_crates[0].details.name, "a");
    assert_eq!(app.compared_crates[0].details.keywords, Some(vec!["tui".to_string()]));
}

#[test]
fn add_by_name_swallows_fetch_failure() {
    let mut app = App::new();
    app.add_crate_to_comparison_by_name(Err("404".to_string()));
    assert!(app.compared_crates.is_empty());
    app.add_crate_to_comparison_by_name(Ok(package("rand")));
    app.add_crate_to_comparison_by_name(Ok(package("rand")));
    assert_eq!(app.compared_crates.len(), 1);
}

#[test]
fn compare_input_asks_for_named_package_and_clears() {
    let mut app = App::new();
    app.jump_to_tab(Tab::Compare);
    assert!(app.handle_key_event(ch('a')).is_none());
    assert!(app.compare_input_mode);
    type_text(&mut app, "serdx");
    app.handle_key_event(key(KeyCode::Backspace));
    type_text(&mut app, "e");
    let r = app.handle_key_event(key(KeyCode::Enter));
    assert!(matches!(r, Some(Request::CrateDetails(n)) if n == "serde"));
    assert!(!app.compare_input_mode);
    assert_eq!(app.compare_search_query, "");
}

#[test]
fn compare_input_escape_and_empty_enter() {
    let mut app = App::new();
    app.jump_to_tab(Tab::Compare);
    app.handle_key_event(ch('a'));
    assert!(app.handle_key_event(key(KeyCode::Enter)).is_none());
    assert!(!app.compare_input_mode);
    app.handle_key_event(ch('a'));
    type_text(&mut app, "qq");
    app.handle_key_event(key(KeyCode::Esc));
    assert!(!app.compare_input_mode);
    assert!(app.running);
    assert_eq!(app.compare_search_query, "qq");
}

#[test]
fn search_input_commits_on_enter() {
    let mut app = App::new();
    app.search_query = "old".to_string();
    app.crates = vec![package("a"), package("b")];
    app.next_item();
    app.handle_key_event(ch('/'));
    assert!(app.input_mode);
    assert_eq!(app.search_query, "");
    type_text(&mut app, "tuiq");
    app.handle_key_event(key(KeyCode::Backspace));
    let r = app.handle_key_event(key(KeyCode::Enter));
    assert!(matches!(r, Some(Request::SearchCrates(q)) if q == "tui"));
    assert!(!app.input_mode);
    assert_eq!(app.selected_index, 0);
    assert!(matches!(app.loading_state, LoadingState::Loading));
    assert!(app.running);
}

#[test]
fn empty_search_commits_nothing() {
    let mut app = App::new();
    app.handle_key_event(ch('/'));
    app.handle_key_event(key(KeyCode::Backspace));
    assert!(app.handle_key_event(key(KeyCode::Enter)).is_none());
    assert!(!app.input_mode);
    assert!(matches!(app.loading_state, LoadingState::NotLoading));
    assert!(app.search_crates().is_none());
}

#[test]
fn slash_outside_search_tab_does_nothing() {
    let mut app = App::new();
    app.jump_to_tab(Tab::Help);
    app.handle_key_event(ch('/'));
    assert!(!app.input_mode);
}

#[test]
fn quit_keys() {
    let mut app = App::new();
    app.handle_key_event(ch('q'));
    assert!(!app.running);

    let mut app = App::new();
    app.handle_key_event(ch('/'));
    app.handle_key_event(ch('q'));
    assert!(app.running);
    assert_eq!(app.search_query, "q");
    app.handle_key_event(Key { code: KeyCode::Char('c'), ctrl: true });
    assert!(!app.running);
}

#[test]
fn detail_mode_scrolls_and_saturates() {
    let mut app = App::new();
    app.handle_key_event(key(KeyCode::Enter));
    assert!(app.show_detail);
    assert_eq!(app.detail_scroll, 0);
    app.handle_key_event(key(KeyCode::Up));
    assert_eq!(app.detail_scroll, 0);
    app.handle_key_event(key(KeyCode::PageDown));
    app.handle_key_event(ch('j'));
    assert_eq!(app.detail_scroll, 11);
    app.handle_key_event(key(KeyCode::PageUp));
    app.handle_key_event(key(KeyCode::PageUp));
    assert_eq!(app.detail_scroll, 0);
    app.detail_scroll = usize::MAX;
    app.handle_key_event(key(KeyCode::Down));
    assert_eq!(app.detail_scroll, usize::MAX);
    app.handle_key_event(key(KeyCode::Esc));
    assert!(!app.show_detail);
    assert!(app.running);
}

#[test]
fn tab_switch_closes_detail_mode() {
    let mut app = App::new();
    app.handle_key_event(key(KeyCode::Enter));
    app.next_tab();
    assert!(!app.show_detail);
}

#[test]
fn number_keys_fetch_only_empty_lists() {
    let mut app = App::new();
    let r = app.handle_key_event(ch('2'));
    assert!(matches!(r, Some(Request::RecentCrates)));
    assert_eq!(app.current_tab, Tab::Recent);
    app.crates_loaded(Ok(vec![package("a")]));
    let r = app.handle_key_event(ch('3'));
    assert!(matches!(r, Some(Request::TrendingRepos(p)) if p == "weekly"));
    app.repos_loaded(Ok(vec![repo("r"), repo("s")]));
    app.next_item();
    assert!(app.handle_key_event(ch('2')).is_none());
    assert_eq!(app.selected_index, 0);
    assert!(app.handle_key_event(ch('3')).is_none());
    assert!(app.handle_key_event(ch('4')).is_none());
    assert_eq!(app.current_tab, Tab::Help);
    assert!(app.handle_key_event(ch('5')).is_none());
    assert_eq!(app.current_tab, Tab::Compare);
    assert!(app.handle_key_event(ch('1')).is_none());
    assert_eq!(app.current_tab, Tab::Search);
}

#[test]
fn shorter_list_resets_selection() {
    let mut app = App::new();
    app.crates = vec![package("a"), package("b"), package("c")];
    app.prev_item();
    assert_eq!(app.selected_index, 2);
    app.crates_loaded(Ok(vec![package("x")]));
    assert_eq!(app.selected_index, 0);
}

#[test]
fn default_search_runs_once_on_empty_search_tab() {
    let mut app = App::new();
    let r = app.default_search();
    assert!(matches!(r, Some(Request::SearchCrates(q)) if q == "rust"));
    assert!(matches!(app.loading_state, LoadingState::Loading));
    assert_eq!(app.search_query, "");
    assert!(app.default_search().is_none());
    let r = app.search_crates_silently("async");
    assert!(matches!(r, Request::SearchCrates(q) if q == "async"));
}

#[test]
fn ignored_events_change_nothing() {
    let mut app = App::new();
    assert!(app.handle_event(Event::Mouse).is_none());
    assert!(app.handle_event(Event::Resize(80, 24)).is_none());
    assert!(app.handle_event(Event::Key(key(KeyCode::Other))).is_none());
    assert_eq!(app.current_tab, Tab::Search);
}

#[test]
fn control_c_quits_from_compare_input() {
    let mut app = App::new();
    app.jump_to_tab(Tab::Compare);
    app.handle_key_event(ch('a'));
    app.handle_key_event(ch('q'));
    assert!(app.running);
    assert_eq!(app.compare_search_query, "q");
    app.handle_key_event(Key { code: KeyCode::Char('c'), ctrl: true });
    assert!(!app.running);
}
