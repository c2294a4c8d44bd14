use mq_docs::browser::{
    contains, filter_entries, wrap_index, App, ContentTab, DocEntry, FocusedPane, InputMode, KeyInput,
    KeyOutcome, ModuleEntry,
};

fn entry(name: &str, description: &str) -> DocEntry {
    DocEntry {
        name: name.to_string(),
        kind: "function".to_string(),
        params: vec![],
        returns: "string".to_string(),
        description: description.to_string(),
        examples: vec![],
        capability: None,
        related_module: None,
    }
}

fn selector_entry(name: &str) -> DocEntry {
    DocEntry { kind: "selector".to_string(), ..entry(name, "") }
}

fn module(name: &str, functions: Vec<DocEntry>, selectors: Vec<DocEntry>) -> ModuleEntry {
    ModuleEntry { name: name.to_string(), functions, selectors }
}

fn two_modules() -> Vec<ModuleEntry> {
    vec![
        module(
            "core",
            vec![entry("add", "Adds numbers"), entry("len", "Length of a string"), entry("upcase", "Upper case")],
            vec![selector_entry(".h1")],
        ),
        module("csv", vec![entry("csv_parse", "Parses CSV")], vec![]),
    ]
}

fn shown_fn_names(app: &App) -> Vec<String> {
    app.filtered_fn.iter().map(|&i| app.current_fns()[i].name.clone()).collect()
}

#[test]
fn a_single_module_starts_on_its_items() {
    let app = App::new(vec![module("m", vec![entry("a", ""), entry("b", "")], vec![selector_entry(".h1")])], None);
    let names: Vec<&str> = app.module_names.iter().map(|s| s.as_str()).collect();
    assert_eq!(names, vec!["All", "m"]);
    assert!(!app.multi_module);
    assert!(app.focused == FocusedPane::Items);
    assert!(app.content_tab == ContentTab::Functions);
    assert!(app.input_mode == InputMode::Normal);
    assert_eq!(app.selected_module, 0);
    assert_eq!(app.module_selection, Some(0));
    assert_eq!(app.filtered_fn, vec![0, 1]);
    assert_eq!(app.filtered_sel, vec![0]);
    assert_eq!(app.item_selection, Some(0));
    assert_eq!(app.fn_count(), 2);
    assert_eq!(app.sel_count(), 1);
}

#[test]
fn several_modules_start_on_the_module_list_with_all_entries() {
    let app = App::new(two_modules(), None);
    assert!(app.multi_module);
    assert!(app.focused == FocusedPane::Modules);
    assert_eq!(shown_fn_names(&app), vec!["add", "len", "upcase", "csv_parse"]);
    assert_eq!(app.module_names.len(), 3);
    assert_eq!(app.module_functions[2].len(), 1);
}

#[test]
fn an_empty_module_has_no_selection() {
    let app = App::new(vec![module("m", vec![], vec![])], None);
    assert_eq!(app.item_selection, None);
    assert!(app.current_fn_entry().is_none());
}

#[test]
fn the_initial_search_filters_ignoring_case() {
    let app = App::new(two_modules(), Some("PARSE".to_string()));
    assert_eq!(shown_fn_names(&app), vec!["csv_parse"]);
    assert_eq!(app.search_query, "PARSE");
    assert_eq!(app.item_selection, Some(0));
    let app = App::new(two_modules(), Some("string".to_string()));
    assert_eq!(shown_fn_names(&app), vec!["len"]);
}

#[test]
fn a_search_without_matches_leaves_no_selection() {
    let app = App::new(two_modules(), Some("zzz".to_string()));
    assert!(app.filtered_fn.is_empty());
    assert_eq!(app.item_selection, None);
}

#[test]
fn item_navigation_wraps_around() {
    let mut app = App::new(vec![module("m", vec![entry("a", ""), entry("b", ""), entry("c", "")], vec![])], None);
    app.navigate_item(-1);
    assert_eq!(app.item_selection, Some(2));
    app.navigate_item(1);
    assert_eq!(app.item_selection, Some(0));
    app.navigate_item(10);
    assert_eq!(app.item_selection, Some(1));
    app.navigate_item(-10);
    assert_eq!(app.item_selection, Some(0));
    assert_eq!(app.current_fn_entry().map(|e| e.name.as_str()), Some("a"));
}

#[test]
fn moving_the_item_selection_there_and_back_restores_it() {
    let mut app = App::new(two_modules(), None);
    app.navigate_item(1);
    app.navigate_item(1);
    assert_eq!(app.item_selection, Some(2));
    app.navigate_item(7);
    assert_eq!(app.item_selection, Some(1));
    app.navigate_item(-7);
    assert_eq!(app.item_selection, Some(2));
}

#[test]
fn item_navigation_on_an_empty_list_does_nothing() {
    let mut app = App::new(vec![module("m", vec![], vec![])], None);
    app.navigate_item(1);
    assert_eq!(app.item_selection, None);
}

#[test]
fn module_navigation_wraps_and_filters_the_new_module() {
    let mut app = App::new(two_modules(), None);
    app.navigate_item(2);
    app.navigate_module(-1);
    assert_eq!(app.selected_module, 2);
    assert_eq!(app.module_selection, Some(2));
    assert_eq!(shown_fn_names(&app), vec!["csv_parse"]);
    assert_eq!(app.item_selection, Some(0));
    app.navigate_module(1);
    assert_eq!(app.selected_module, 0);
    assert_eq!(shown_fn_names(&app), vec!["add", "len", "upcase", "csv_parse"]);
}

#[test]
fn selecting_a_missing_module_does_nothing() {
    let mut app = App::new(two_modules(), None);
    app.select_module(3);
    assert_eq!(app.selected_module, 0);
    app.select_module(1);
    assert_eq!(app.selected_module, 1);
    assert_eq!(shown_fn_names(&app), vec!["add", "len", "upcase"]);
}

#[test]
fn switching_the_tab_twice_shows_the_functions_again() {
    let mut app = App::new(two_modules(), None);
    app.navigate_item(1);
    app.switch_content_tab();
    assert!(app.content_tab == ContentTab::Selectors);
    assert_eq!(app.item_selection, Some(0));
    assert_eq!(app.current_sel_entry().map(|e| e.name.as_str()), Some(".h1"));
    app.switch_content_tab();
    assert!(app.content_tab == ContentTab::Functions);
    assert_eq!(app.item_selection, Some(0));
}

#[test]
fn switching_to_an_empty_tab_clears_the_selection() {
    let mut app = App::new(vec![module("m", vec![entry("a", "")], vec![])], None);
    app.switch_content_tab();
    assert_eq!(app.item_selection, None);
    assert!(app.current_sel_entry().is_none());
}

#[test]
fn keys_edit_the_search_query() {
    let mut app = App::new(two_modules(), None);
    assert_eq!(app.handle_key(KeyInput::Char('/')), KeyOutcome::Continue);
    assert!(app.input_mode == InputMode::Searching);
    app.handle_key(KeyInput::Char('c'));
    app.handle_key(KeyInput::Char('S'));
    assert_eq!(app.search_query, "cS");
    assert_eq!(shown_fn_names(&app), vec!["csv_parse"]);
    app.handle_key(KeyInput::Char('q'));
    assert_eq!(app.search_query, "cSq");
    assert!(app.filtered_fn.is_empty());
    assert_eq!(app.item_selection, None);
    app.handle_key(KeyInput::Backspace);
    assert_eq!(app.search_query, "cS");
    assert_eq!(shown_fn_names(&app), vec!["csv_parse"]);
    assert_eq!(app.handle_key(KeyInput::Enter), KeyOutcome::Continue);
    assert!(app.input_mode == InputMode::Normal);
    assert_eq!(app.search_query, "cS");
}

#[test]
fn escape_clears_the_search_and_shows_every_entry() {
    let mut app = App::new(two_modules(), Some("add".to_string()));
    app.handle_key(KeyInput::Char('/'));
    app.handle_key(KeyInput::Esc);
    assert!(app.input_mode == InputMode::Normal);
    assert_eq!(app.search_query, "");
    assert_eq!(app.filtered_fn, vec![0, 1, 2, 3]);
    assert_eq!(app.filtered_sel, vec![0]);
}

#[test]
fn backspace_on_an_empty_query_keeps_it_empty() {
    let mut app = App::new(two_modules(), None);
    app.handle_key(KeyInput::Char('/'));
    app.handle_key(KeyInput::Backspace);
    assert_eq!(app.search_query, "");
    assert!(app.input_mode == InputMode::Searching);
}

#[test]
fn typing_and_erasing_a_character_restores_the_lists() {
    let mut app = App::new(two_modules(), Some("a".to_string()));
    app.handle_key(KeyInput::Char('/'));
    let before_fn = app.filtered_fn.clone();
    let before_sel = app.filtered_sel.clone();
    app.handle_key(KeyInput::Char('d'));
    assert_ne!(app.filtered_fn, before_fn);
    app.handle_key(KeyInput::Backspace);
    assert_eq!(app.search_query, "a");
    assert_eq!(app.filtered_fn, before_fn);
    assert_eq!(app.filtered_sel, before_sel);
}

#[test]
fn q_quits_only_while_navigating() {
    let mut app = App::new(two_modules(), None);
    assert_eq!(app.handle_key(KeyInput::Char('q')), KeyOutcome::Quit);
    assert!(app.input_mode == InputMode::Normal);
}

#[test]
fn focus_keys_move_between_the_panes() {
    let mut app = App::new(two_modules(), None);
    app.handle_key(KeyInput::Char('l'));
    assert!(app.focused == FocusedPane::Items);
    app.handle_key(KeyInput::Left);
    assert!(app.focused == FocusedPane::Modules);
    app.handle_key(KeyInput::Right);
    assert!(app.focused == FocusedPane::Items);
    app.handle_key(KeyInput::Char('h'));
    assert!(app.focused == FocusedPane::Modules);
    app.handle_key(KeyInput::Enter);
    assert!(app.focused == FocusedPane::Items);
    app.handle_key(KeyInput::Enter);
    assert!(app.focused == FocusedPane::Items);
}

#[test]
fn focus_keys_do_nothing_with_one_module() {
    let mut app = App::new(vec![module("m", vec![entry("a", ""), entry("b", "")], vec![])], None);
    app.handle_key(KeyInput::Char('h'));
    assert!(app.focused == FocusedPane::Items);
    app.handle_key(KeyInput::Left);
    assert!(app.focused == FocusedPane::Items);
    assert_eq!(app.item_selection, Some(0));
}

#[test]
fn navigation_keys_move_the_focused_list() {
    let mut app = App::new(two_modules(), None);
    app.handle_key(KeyInput::Down);
    assert_eq!(app.selected_module, 1);
    app.handle_key(KeyInput::Char('j'));
    assert_eq!(app.selected_module, 2);
    app.handle_key(KeyInput::Char('k'));
    assert_eq!(app.selected_module, 1);
    app.handle_key(KeyInput::PageDown);
    assert_eq!(app.selected_module, 2);
    app.handle_key(KeyInput::Tab);
    assert!(app.content_tab == ContentTab::Selectors);
    app.handle_key(KeyInput::Char('l'));
    app.handle_key(KeyInput::Tab);
    app.handle_key(KeyInput::Up);
    assert_eq!(app.selected_module, 2);
    assert_eq!(app.item_selection, Some(0));
    app.handle_key(KeyInput::PageUp);
    assert_eq!(app.item_selection, Some(0));
    app.handle_key(KeyInput::Other);
    assert_eq!(app.selected_module, 2);
}

#[test]
fn contains_finds_substrings() {
    assert!(contains("hello", "ell"));
    assert!(contains("hello", ""));
    assert!(contains("", ""));
    assert!(!contains("", "a"));
    assert!(!contains("hel", "hello"));
    assert!(contains("hello", "hello"));
    assert!(!contains("hello", "lo!"));
}

#[test]
fn wrap_index_is_the_euclidean_remainder() {
    assert_eq!(wrap_index(0, -1, 3), 2);
    assert_eq!(wrap_index(2, 1, 3), 0);
    assert_eq!(wrap_index(2, 10, 3), 0);
    assert_eq!(wrap_index(1, -10, 3), 0);
    assert_eq!(wrap_index(0, isize::MIN, 5), 2);
    assert_eq!(wrap_index(4, isize::MAX, 5), ((4i128 + isize::MAX as i128).rem_euclid(5)) as usize);
    assert_eq!(wrap_index(0, 0, 1), 0);
}

#[test]
fn filter_entries_matches_names_and_descriptions() {
    let entries = vec![entry("Add", "x"), entry("b", "adds"), entry("c", "none")];
    assert_eq!(filter_entries(&entries, "add"), vec![0, 1]);
    assert_eq!(filter_entries(&entries, ""), vec![0, 1, 2]);
    assert_eq!(filter_entries(&entries, "Add"), Vec::<usize>::new());
}
