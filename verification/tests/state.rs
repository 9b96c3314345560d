use oliver_explorer::state::AppSettings;
use oliver_explorer::state::OliverExplorer;
use oliver_explorer::state::SearchError;
use oliver_explorer::state::StateError;
use oliver_explorer::state::Tab;
use oliver_explorer::state::Window;
use oliver_explorer::ui::AppAction;
use std::sync::Arc;
use url::Url;

/// What a fetch gives when nothing answers.
fn offline() -> Result<String, String> {
    Err("connection refused".to_string())
}

/// What a fetch gives for a page with the given body text.
fn page(text: &str) -> Result<String, String> {
    Ok(format!(
        "<html><head><title>t</title></head><body><p>{}</p></body></html>",
        text
    ))
}

fn ids(window: &Window) -> Vec<usize> {
    window.tabs.iter().map(|tab| tab.id).collect()
}

fn active_ids(window: &Window) -> Vec<usize> {
    window
        .tabs
        .iter()
        .filter(|tab| tab.is_active())
        .map(|tab| tab.id)
        .collect()
}

fn window_ids(app: &OliverExplorer) -> Vec<usize> {
    app.windows.iter().map(|window| window.id).collect()
}

#[test]
fn test_default_initialization() {
    // Create a default app instance
    let app = OliverExplorer::new(offline());
    assert_eq!(app.windows.len(), 1);
    assert!(Arc::strong_count(&app.settings) >= 2);
}

#[test]
fn test_adding_windows() {
    // Create a default app instance
    let mut app = OliverExplorer::new(offline());
    assert_eq!(app.windows.len(), 1);

    // Add a new window
    app.new_window(offline());
    assert_eq!(app.windows.len(), 2);

    // Add another window
    app.new_window(offline());
    assert_eq!(app.windows.len(), 3);

    // Verify that all windows share the same settings
    let settings_ptr = Arc::as_ptr(&app.settings);
    for window in &app.windows {
        assert_eq!(Arc::as_ptr(&window.settings), settings_ptr);
    }

    // The reference count should be at least 4 (1 for app + 3 for windows)
    assert!(Arc::strong_count(&app.settings) >= 4);
}

#[test]
fn test_default_settings() {
    let settings = AppSettings::default();
    assert_eq!(settings.title, "Oliver Explorer");
    assert_eq!(
        settings.default_url,
        Url::parse("http://localhost:3333").unwrap().as_str()
    );
}

#[test]
fn test_new_tab_creation() {
    // Create a new tab
    let settings = Arc::new(AppSettings::default());
    let tab = Tab::new(1, Arc::clone(&settings), offline());

    // Verify the tab properties
    assert_eq!(tab.id, 1);
    assert_eq!(tab.url, settings.default_url);
    assert!(tab.is_active());
    assert!(Arc::ptr_eq(&tab.settings, &settings));
    assert_eq!(tab.search_buffer, String::new());
}

#[test]
fn test_is_active() {
    // A tab is shown or hidden by its window alone
    let mut window = Window::new(0, Arc::new(AppSettings::default()), offline());
    assert!(window.tabs[0].is_active());

    // Change the state to inactive
    window.new_tab(offline());
    assert!(!window.tabs[0].is_active());

    // Change back to active
    window.set_active_tab(0);
    assert!(window.tabs[0].is_active());
}

#[test]
fn test_window_creation() {
    let settings = Arc::new(AppSettings::default());
    let window = Window::new(0, Arc::clone(&settings), offline());

    // Check window has correct settings
    assert!(Arc::ptr_eq(&window.settings, &settings));
    assert_eq!(window.tabs.len(), 1);
    assert!(window.tabs[0].is_active());
    assert_eq!(window.tabs[0].id, 0);
}

#[test]
fn test_new_tab() {
    let settings = Arc::new(AppSettings::default());
    let mut window = Window::new(0, Arc::clone(&settings), offline());

    // Initially one tab
    assert_eq!(window.tabs.len(), 1);
    assert!(window.tabs[0].is_active());

    // Create a new tab - should be active with id 1
    window.new_tab(offline());
    assert_eq!(window.tabs.len(), 2);
    assert!(!window.tabs[0].is_active());
    assert!(window.tabs[1].is_active());
    assert_eq!(window.tabs[1].id, 1);
}

#[test]
fn test_set_active_tab() {
    let settings = Arc::new(AppSettings::default());
    let mut window = Window::new(0, Arc::clone(&settings), offline());

    // Add a second tab
    window.new_tab(offline());

    // Second tab (id 1) should be active
    assert!(!window.tabs[0].is_active());
    assert!(window.tabs[1].is_active());

    // Set first tab as active
    window.set_active_tab(0);

    // First tab should now be active, second inactive
    assert!(window.tabs[0].is_active());
    assert!(!window.tabs[1].is_active());
}

#[test]
fn test_get_active_tab() {
    let settings = Arc::new(AppSettings::default());
    let mut window = Window::new(0, Arc::clone(&settings), offline());

    // Add a second tab (which becomes active)
    window.new_tab(offline());

    // Get active tab should return the second tab
    let active_tab = window.get_active_tab().unwrap();
    assert_eq!(active_tab.id, 1);

    // Set first tab as active
    window.set_active_tab(0);

    // Get active tab should now return the first tab
    let active_tab = window.get_active_tab().unwrap();
    assert_eq!(active_tab.id, 0);
}

#[test]
fn test_close_inactive_tab() {
    let settings = Arc::new(AppSettings::default());
    let mut window = Window::new(0, Arc::clone(&settings), offline());

    // Add a second tab
    window.new_tab(offline());

    // Close the first tab (which is inactive)
    let result = window.close_tab(0);
    assert!(result.is_ok());

    // Should have one tab left
    assert_eq!(window.tabs.len(), 1);

    // The remaining tab should be active and have id 1
    assert!(window.tabs[0].is_active());
    assert_eq!(window.tabs[0].id, 1);
}

#[test]
fn test_close_active_tab_with_previous() {
    let settings = Arc::new(AppSettings::default());
    let mut window = Window::new(0, Arc::clone(&settings), offline());

    // Add two more tabs
    window.new_tab(offline()); // id 1
    window.new_tab(offline()); // id 2

    // Close the last tab (which is active)
    let result = window.close_tab(2);
    assert!(result.is_ok());

    // Should have two tabs left
    assert_eq!(window.tabs.len(), 2);

    // Tab with id 1 should now be active
    let active_tab = window.get_active_tab().unwrap();
    assert_eq!(active_tab.id, 1);
}

#[test]
fn test_close_active_tab_with_next() {
    let settings = Arc::new(AppSettings::default());
    let mut window = Window::new(0, Arc::clone(&settings), offline());

    // Add a second tab
    window.new_tab(offline()); // id 1

    // Set first tab as active
    window.set_active_tab(0);

    // Close the first tab (which is active)
    let result = window.close_tab(0);
    assert!(result.is_ok());

    // Should have one tab left
    assert_eq!(window.tabs.len(), 1);

    // The remaining tab should be active and have id 1
    assert!(window.tabs[0].is_active());
    assert_eq!(window.tabs[0].id, 1);
}

#[test]
fn test_close_nonexistent_tab() {
    let settings = Arc::new(AppSettings::default());
    let mut window = Window::new(0, Arc::clone(&settings), offline());

    // Try to close a tab that doesn't exist
    let result = window.close_tab(999);
    assert!(result.is_err());
    assert_eq!(result.unwrap_err().message(), "Tab not found");

    // Should still have one tab
    assert_eq!(window.tabs.len(), 1);
}

#[test]
fn default_address_is_the_serialized_url() {
    let settings = AppSettings::default();
    assert_eq!(settings.default_url, "http://localhost:3333/");
}

#[test]
fn settings_with_address_serialize_the_url() {
    let settings = AppSettings::with_address("Mine".to_string(), "HTTP://Example.COM").unwrap();
    assert_eq!(settings.title, "Mine");
    assert_eq!(settings.default_url, "http://example.com/");
    assert_eq!(
        settings.default_url,
        Url::parse("HTTP://Example.COM").unwrap().as_str()
    );
}

#[test]
fn settings_with_address_refuse_what_is_no_url() {
    assert!(AppSettings::with_address("Mine".to_string(), "not a url").is_none());
    assert!(AppSettings::with_address("Mine".to_string(), "").is_none());
    assert!(AppSettings::with_address("Mine".to_string(), "/relative/path").is_none());
}

#[test]
fn new_tab_loads_the_fetched_page() {
    let settings = Arc::new(AppSettings::default());
    let tab = Tab::new(7, Arc::clone(&settings), page("Hello World"));
    assert_eq!(tab.id, 7);
    assert_eq!(tab.id(), 7);
    assert_eq!(tab.url, "http://localhost:3333/");
    assert_eq!(tab.content, "Hello World");
    assert_eq!(tab.search_buffer, "");
    assert!(tab.is_active());
}

#[test]
fn new_tab_is_blank_when_the_fetch_failed() {
    let settings = Arc::new(AppSettings::default());
    let tab = Tab::new(0, settings, offline());
    assert_eq!(tab.content, "");
    assert_eq!(tab.url, "http://localhost:3333/");
    assert!(tab.is_active());
}

#[test]
fn content_from_fetch_extracts_or_reports() {
    assert_eq!(
        Tab::content_from_fetch(page("one")).unwrap(),
        "one".to_string()
    );
    match Tab::content_from_fetch(Err("timed out".to_string())) {
        Err(SearchError::FetchFailed(detail)) => assert_eq!(detail, "timed out"),
        other => panic!("unexpected {:?}", other),
    }
}

#[test]
fn search_error_messages() {
    assert_eq!(SearchError::EmptyInput.message(), "Empty URL");
    assert_eq!(
        SearchError::FetchFailed("timed out".to_string()).message(),
        "Failed to fetch URL: timed out"
    );
    assert_eq!(
        SearchError::ParseFailed("bad selector".to_string()).message(),
        "Failed to parse HTML: bad selector"
    );
}

#[test]
fn state_error_messages() {
    assert_eq!(StateError::TabNotFound.message(), "Tab not found");
    assert_eq!(StateError::NoActiveTab.message(), "No active tab found");
    assert_eq!(StateError::WindowNotFound.message(), "Window not found");
}

#[test]
fn search_url_is_the_trimmed_input() {
    let mut tab = Tab::new(0, Arc::new(AppSettings::default()), offline());
    tab.search_buffer = "  http://example.com/page \n".to_string();
    assert_eq!(tab.search_url().unwrap(), "http://example.com/page");
    tab.search_buffer = "a b".to_string();
    assert_eq!(tab.search_url().unwrap(), "a b");
}

#[test]
fn search_url_of_blank_input_is_empty_input() {
    let mut tab = Tab::new(0, Arc::new(AppSettings::default()), offline());
    assert!(matches!(tab.search_url(), Err(SearchError::EmptyInput)));
    tab.search_buffer = " \t\u{3000}".to_string();
    assert!(matches!(tab.search_url(), Err(SearchError::EmptyInput)));
}

#[test]
fn search_replaces_address_and_text_together() {
    let mut tab = Tab::new(3, Arc::new(AppSettings::default()), page("old"));
    tab.search_buffer = "  http://example.com/new  ".to_string();
    let result = tab.search(page("new text"));
    assert!(result.is_ok());
    assert_eq!(tab.url, "http://example.com/new");
    assert_eq!(tab.content, "new text");
    assert_eq!(tab.search_buffer, "  http://example.com/new  ");
    assert_eq!(tab.id, 3);
    assert!(tab.is_active());
}

#[test]
fn failing_search_leaves_address_and_text() {
    let mut tab = Tab::new(3, Arc::new(AppSettings::default()), page("old"));
    tab.search_buffer = "http://example.com/new".to_string();
    match tab.search(Err("no route to host".to_string())) {
        Err(SearchError::FetchFailed(detail)) => assert_eq!(detail, "no route to host"),
        other => panic!("unexpected {:?}", other),
    }
    assert_eq!(tab.url, "http://localhost:3333/");
    assert_eq!(tab.content, "old");
    assert_eq!(tab.search_buffer, "http://example.com/new");
}

#[test]
fn blank_search_is_empty_input_and_changes_nothing() {
    let mut tab = Tab::new(3, Arc::new(AppSettings::default()), page("old"));
    tab.search_buffer = "   ".to_string();
    assert!(matches!(
        tab.search(page("never used")),
        Err(SearchError::EmptyInput)
    ));
    assert_eq!(tab.url, "http://localhost:3333/");
    assert_eq!(tab.content, "old");
    assert_eq!(tab.search_buffer, "   ");
}

#[test]
fn exactly_one_tab_is_shown_after_every_step() {
    let mut window = Window::new(4, Arc::new(AppSettings::default()), offline());
    assert_eq!(active_ids(&window), vec![0]);
    window.new_tab(offline());
    assert_eq!(active_ids(&window), vec![1]);
    window.new_tab(page("x"));
    assert_eq!(active_ids(&window), vec![2]);
    window.set_active_tab(0);
    assert_eq!(active_ids(&window), vec![0]);
    assert_eq!(window.close_tab(1), Ok(false));
    assert_eq!(active_ids(&window), vec![0]);
    assert_eq!(window.close_tab(0), Ok(false));
    assert_eq!(active_ids(&window), vec![2]);
    assert_eq!(window.search_tab(2, offline()).unwrap().is_some(), true);
    assert_eq!(active_ids(&window), vec![2]);
    assert_eq!(window.id, 4);
}

#[test]
fn ids_are_never_used_again() {
    let mut window = Window::new(0, Arc::new(AppSettings::default()), offline());
    window.new_tab(offline());
    window.new_tab(offline());
    assert_eq!(ids(&window), vec![0, 1, 2]);
    assert_eq!(window.close_tab(2), Ok(false));
    assert_eq!(window.close_tab(0), Ok(false));
    window.new_tab(offline());
    assert_eq!(ids(&window), vec![1, 3]);
    assert_eq!(window.close_tab(3), Ok(false));
    assert_eq!(window.close_tab(1), Ok(true));
    assert!(window.tabs.is_empty());
    window.new_tab(offline());
    assert_eq!(ids(&window), vec![4]);
}

#[test]
fn ids_stay_through_selecting_and_searching() {
    let mut window = Window::new(0, Arc::new(AppSettings::default()), offline());
    window.new_tab(offline());
    window.new_tab(offline());
    window.set_active_tab(1);
    assert_eq!(ids(&window), vec![0, 1, 2]);
    window.tabs[1].search_buffer = "http://example.com".to_string();
    assert_eq!(window.search_tab(1, page("found")).unwrap().is_none(), true);
    assert_eq!(ids(&window), vec![0, 1, 2]);
    assert_eq!(window.tabs[1].content, "found");
}

#[test]
fn new_tab_is_shown_and_the_others_are_hidden() {
    let mut window = Window::new(0, Arc::new(AppSettings::default()), offline());
    window.new_tab(offline());
    window.set_active_tab(0);
    window.new_tab(page("third"));
    assert_eq!(window.tabs.len(), 3);
    assert!(!window.tabs[0].is_active());
    assert!(!window.tabs[1].is_active());
    assert!(window.tabs[2].is_active());
    assert_eq!(window.tabs[2].id, 2);
    assert_eq!(window.tabs[2].content, "third");
    assert_eq!(window.tabs[2].url, "http://localhost:3333/");
    assert!(Arc::ptr_eq(&window.tabs[2].settings, &window.settings));
}

#[test]
fn closing_the_shown_last_tab_shows_the_one_before() {
    let mut window = Window::new(0, Arc::new(AppSettings::default()), offline());
    window.new_tab(offline());
    window.new_tab(offline());
    assert_eq!(active_ids(&window), vec![2]);
    assert_eq!(window.close_tab(2), Ok(false));
    assert_eq!(ids(&window), vec![0, 1]);
    assert_eq!(active_ids(&window), vec![1]);
}

#[test]
fn closing_the_shown_middle_tab_shows_the_next() {
    let mut window = Window::new(0, Arc::new(AppSettings::default()), offline());
    window.new_tab(offline());
    window.new_tab(offline());
    window.set_active_tab(1);
    assert_eq!(window.close_tab(1), Ok(false));
    assert_eq!(ids(&window), vec![0, 2]);
    assert_eq!(active_ids(&window), vec![2]);
}

#[test]
fn closing_the_shown_first_tab_shows_the_next() {
    let mut window = Window::new(0, Arc::new(AppSettings::default()), offline());
    window.new_tab(offline());
    window.new_tab(offline());
    window.set_active_tab(0);
    assert_eq!(window.close_tab(0), Ok(false));
    assert_eq!(ids(&window), vec![1, 2]);
    assert_eq!(active_ids(&window), vec![1]);
}

#[test]
fn closing_the_only_tab_closes_the_window() {
    let mut window = Window::new(0, Arc::new(AppSettings::default()), offline());
    assert_eq!(window.close_tab(0), Ok(true));
    assert!(window.tabs.is_empty());
    assert!(matches!(
        window.get_active_tab(),
        Err(StateError::NoActiveTab)
    ));
    assert!(matches!(
        window.get_active_tab_mut(),
        Err(StateError::NoActiveTab)
    ));
}

#[test]
fn closing_a_hidden_tab_keeps_the_shown_one() {
    let mut window = Window::new(0, Arc::new(AppSettings::default()), offline());
    window.new_tab(offline());
    window.new_tab(page("shown"));
    assert_eq!(window.close_tab(0), Ok(false));
    assert_eq!(ids(&window), vec![1, 2]);
    assert_eq!(active_ids(&window), vec![2]);
    assert_eq!(window.get_active_tab().unwrap().content, "shown");
    assert_eq!(window.close_tab(1), Ok(false));
    assert_eq!(ids(&window), vec![2]);
    assert_eq!(active_ids(&window), vec![2]);
}

#[test]
fn unknown_id_is_reported_and_nothing_changes() {
    let mut window = Window::new(0, Arc::new(AppSettings::default()), page("kept"));
    window.new_tab(offline());
    window.tabs[0].search_buffer = "http://example.com".to_string();
    assert_eq!(window.close_tab(999), Err(StateError::TabNotFound));
    assert!(matches!(
        window.search_tab(999, page("other")),
        Err(StateError::TabNotFound)
    ));
    assert_eq!(ids(&window), vec![0, 1]);
    assert_eq!(active_ids(&window), vec![1]);
    assert_eq!(window.tabs[0].content, "kept");
    assert_eq!(window.tabs[0].url, "http://localhost:3333/");
    assert!(!window.has_tab(999));
    assert!(window.has_tab(1));
    assert_eq!(window.tab_index(999), None);
    assert_eq!(window.tab_index(1), Some(1));
}

#[test]
fn end_to_end_scenario() {
    let mut window = Window::new(0, Arc::new(AppSettings::default()), offline());
    assert_eq!(ids(&window), vec![0]);
    window.new_tab(offline());
    assert_eq!(window.get_active_tab().unwrap().id, 1);
    window.new_tab(offline());
    assert_eq!(window.get_active_tab().unwrap().id, 2);
    let result = window.close_tab(2);
    assert_eq!(ids(&window), vec![0, 1]);
    assert_eq!(window.get_active_tab().unwrap().id, 1);
    assert_eq!(result, Ok(false));
}

#[test]
fn selecting_an_unknown_id_leaves_no_tab_shown() {
    let mut window = Window::new(0, Arc::new(AppSettings::default()), offline());
    window.new_tab(offline());
    window.set_active_tab(999);
    assert_eq!(active_ids(&window), Vec::<usize>::new());
    assert!(matches!(
        window.get_active_tab(),
        Err(StateError::NoActiveTab)
    ));
}

#[test]
fn search_tab_hands_back_the_failure_of_the_search() {
    let mut window = Window::new(0, Arc::new(AppSettings::default()), page("kept"));
    match window.search_tab(0, page("other")) {
        Ok(Some(SearchError::EmptyInput)) => {}
        other => panic!("unexpected {:?}", other),
    }
    assert_eq!(window.tabs[0].content, "kept");
    window.tabs[0].search_buffer = "http://example.com".to_string();
    match window.search_tab(0, offline()) {
        Ok(Some(SearchError::FetchFailed(detail))) => assert_eq!(detail, "connection refused"),
        other => panic!("unexpected {:?}", other),
    }
    assert_eq!(window.tabs[0].content, "kept");
    assert_eq!(window.tabs[0].url, "http://localhost:3333/");
}

#[test]
fn get_active_tab_mut_hands_out_the_shown_tab() {
    let mut window = Window::new(0, Arc::new(AppSettings::default()), offline());
    window.new_tab(offline());
    {
        let tab = window.get_active_tab_mut().unwrap();
        assert_eq!(tab.id, 1);
        tab.search_buffer = "  http://example.com  ".to_string();
    }
    assert_eq!(window.tabs[1].search_buffer, "  http://example.com  ");
    assert_eq!(window.tabs[0].search_buffer, "");
    assert_eq!(window.tabs[1].search_url().unwrap(), "http://example.com");
}

#[test]
fn window_accessors() {
    let settings = Arc::new(AppSettings::default());
    let mut window = Window::new(9, Arc::clone(&settings), offline());
    assert_eq!(window.id(), 9);
    assert_eq!(window.default_url(), "http://localhost:3333/");
    assert!(window.can_open_tab());
    window.new_tab(offline());
    window.new_tab(offline());
    assert_eq!(window.close_tab(1), Ok(false));
    assert_eq!(window.tab(2).unwrap().id, 2);
    assert_eq!(window.tab(0).unwrap().id, 0);
    assert!(window.tab(2).unwrap().is_active());
    assert!(window.tab(1).is_none());
}

#[test]
fn application_starts_with_one_window_with_one_tab() {
    let app = OliverExplorer::new(page("home"));
    assert_eq!(window_ids(&app), vec![0]);
    assert_eq!(ids(&app.windows[0]), vec![0]);
    assert_eq!(app.windows[0].tabs[0].content, "home");
    assert_eq!(app.settings.title, "Oliver Explorer");
    assert!(Arc::ptr_eq(&app.settings, &app.windows[0].settings));
    assert!(Arc::ptr_eq(&app.settings, &app.windows[0].tabs[0].settings));
    assert!(app.can_open_window());
}

#[test]
fn application_with_settings_of_its_own() {
    let settings =
        Arc::new(AppSettings::with_address("Mine".to_string(), "http://example.com").unwrap());
    let app = OliverExplorer::with_settings(Arc::clone(&settings), offline());
    assert!(Arc::ptr_eq(&app.settings, &settings));
    assert_eq!(app.windows[0].tabs[0].url, "http://example.com/");
}

#[test]
fn new_windows_get_the_next_ids() {
    let mut app = OliverExplorer::new(offline());
    app.new_window(offline());
    app.new_window(page("third"));
    assert_eq!(window_ids(&app), vec![0, 1, 2]);
    assert_eq!(app.close_window(1), Ok(()));
    app.new_window(offline());
    assert_eq!(window_ids(&app), vec![0, 2, 3]);
    assert_eq!(app.window_index(2), Some(1));
    assert_eq!(app.window_index(1), None);
    assert_eq!(ids(&app.windows[2]), vec![0]);
}

#[test]
fn closing_an_unknown_window_is_reported() {
    let mut app = OliverExplorer::new(offline());
    assert_eq!(app.close_window(5), Err(StateError::WindowNotFound));
    assert_eq!(window_ids(&app), vec![0]);
}

#[test]
fn closing_the_last_window_leaves_none() {
    let mut app = OliverExplorer::new(offline());
    assert_eq!(app.close_window(0), Ok(()));
    assert!(app.windows.is_empty());
    assert_eq!(app.close_window(0), Err(StateError::WindowNotFound));
}

#[test]
fn closing_a_tab_through_the_application() {
    let mut app = OliverExplorer::new(offline());
    app.new_window(offline());
    app.windows[1].new_tab(offline());

    // A tab of a window with others: the window stays.
    assert_eq!(app.close_tab(1, 0), Ok(AppAction::Nothing));
    assert_eq!(window_ids(&app), vec![0, 1]);
    assert_eq!(ids(&app.windows[1]), vec![1]);

    // The last tab of a window: the window goes with it.
    assert_eq!(app.close_tab(1, 1), Ok(AppAction::CloseWindow));
    assert_eq!(window_ids(&app), vec![0]);

    // Errors change nothing.
    assert_eq!(app.close_tab(1, 0), Err(StateError::WindowNotFound));
    assert_eq!(app.close_tab(0, 7), Err(StateError::TabNotFound));
    assert_eq!(window_ids(&app), vec![0]);
    assert_eq!(ids(&app.windows[0]), vec![0]);

    // The last tab of the last window: the application is over.
    assert_eq!(app.close_tab(0, 0), Ok(AppAction::CloseApp));
    assert!(app.windows.is_empty());
}

#[test]
fn tab_accessors_read_the_fields() {
    let mut tab = Tab::new(2, Arc::new(AppSettings::default()), page("text"));
    assert_eq!(tab.url(), "http://localhost:3333/");
    assert_eq!(tab.content(), "text");
    assert_eq!(tab.search_buffer(), "");
    tab.set_search_buffer("  http://example.com ".to_string());
    assert_eq!(tab.search_buffer(), "  http://example.com ");
    assert_eq!(tab.search_buffer, "  http://example.com ");
    assert_eq!(tab.url(), "http://localhost:3333/");
    assert_eq!(tab.content(), "text");
    assert_eq!(tab.id(), 2);
    assert!(tab.is_active());
    assert!(tab.search(page("more")).is_ok());
    assert_eq!(tab.url(), "http://example.com");
    assert_eq!(tab.content(), "more");
}

#[test]
fn counts_follow_opening_and_closing() {
    let mut app = OliverExplorer::new(offline());
    assert_eq!(app.window_count(), 1);
    app.new_window(offline());
    assert_eq!(app.window_count(), 2);
    assert_eq!(app.windows[1].tab_count(), 1);
    app.windows[1].new_tab(offline());
    assert_eq!(app.windows[1].tab_count(), 2);
    assert_eq!(app.close_tab(1, 0), Ok(AppAction::Nothing));
    assert_eq!(app.windows[1].tab_count(), 1);
    assert_eq!(app.close_window(0), Ok(()));
    assert_eq!(app.window_count(), 1);
}

#[test]
fn a_search_input_of_blanks_is_empty_input() {
    let mut tab = Tab::new(0, Arc::new(AppSettings::default()), page("kept"));
    for blank in ["", " ", "   ", "\t", " \n ", "\u{00A0}", "\u{2003}\u{3000} "] {
        tab.set_search_buffer(blank.to_string());
        assert!(matches!(tab.search_url(), Err(SearchError::EmptyInput)));
        assert!(matches!(
            tab.search(page("never used")),
            Err(SearchError::EmptyInput)
        ));
        assert_eq!(tab.content(), "kept");
    }
}

#[test]
fn new_tab_shows_one_tab_whatever_was_shown_before() {
    let mut window = Window::new(0, Arc::new(AppSettings::default()), offline());
    window.new_tab(offline());
    // No tab shown.
    window.set_active_tab(999);
    assert_eq!(active_ids(&window), Vec::<usize>::new());
    window.new_tab(offline());
    assert_eq!(active_ids(&window), vec![2]);
    assert_eq!(ids(&window), vec![0, 1, 2]);
}
