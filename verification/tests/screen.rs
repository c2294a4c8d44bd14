use mq_docs::browser::{App, DocEntry, KeyInput, ModuleEntry};
use mq_docs::detail::{Segment, SpanStyle};
use mq_docs::screen::{help_line, item_rows, module_labels, selected_detail, tab_titles};

fn entry(name: &str, kind: &str, description: &str) -> DocEntry {
    DocEntry {
        name: name.to_string(),
        kind: kind.to_string(),
        params: vec![],
        returns: "none".to_string(),
        description: description.to_string(),
        examples: vec![],
        capability: None,
        related_module: None,
    }
}

fn modules() -> Vec<ModuleEntry> {
    vec![
        ModuleEntry {
            name: "core".to_string(),
            functions: vec![entry("add", "function", "Adds"), entry("old", "function", "Deprecated")],
            selectors: vec![entry(".h1", "selector", "Heading")],
        },
        ModuleEntry { name: "csv".to_string(), functions: vec![entry("csv_parse", "function", "")], selectors: vec![] },
    ]
}

fn view(segments: &[Segment]) -> Vec<(SpanStyle, &str)> {
    segments.iter().map(|s| (s.style, s.text.as_str())).collect()
}

#[test]
fn tab_titles_count_the_shown_entries() {
    let app = App::new(modules(), None);
    assert_eq!(tab_titles(&app), vec![" Functions (3) ", " Selectors (1) "]);
    let app = App::new(modules(), Some("csv".to_string()));
    assert_eq!(tab_titles(&app), vec![" Functions (1) ", " Selectors (0) "]);
}

#[test]
fn module_labels_count_functions() {
    let app = App::new(modules(), None);
    assert_eq!(module_labels(&app), vec!["All (3)", "core (2)", "csv (1)"]);
}

#[test]
fn item_rows_mark_deprecated_functions() {
    let app = App::new(modules(), None);
    assert_eq!(
        view(&item_rows(&app)),
        vec![(SpanStyle::Plain, "add"), (SpanStyle::Deprecated, "old"), (SpanStyle::Plain, "csv_parse")]
    );
}

#[test]
fn item_rows_of_selectors() {
    let mut app = App::new(modules(), None);
    app.switch_content_tab();
    assert_eq!(view(&item_rows(&app)), vec![(SpanStyle::Plain, ".h1")]);
}

#[test]
fn the_detail_follows_the_highlighted_entry() {
    let mut app = App::new(modules(), None);
    let detail = selected_detail(&app).expect("an entry is highlighted");
    assert_eq!(view(&detail[0]), vec![(SpanStyle::Label, "Function:    "), (SpanStyle::Name, "add")]);
    app.switch_content_tab();
    let detail = selected_detail(&app).expect("an entry is highlighted");
    assert_eq!(view(&detail[0]), vec![(SpanStyle::Label, "Selector:    "), (SpanStyle::Name, ".h1")]);
    app.navigate_module(2);
    assert!(selected_detail(&app).is_none());
}

#[test]
fn help_line_shows_the_keys_or_the_query() {
    let mut app = App::new(modules(), None);
    assert_eq!(
        view(&help_line(&app)),
        vec![(SpanStyle::Hint, " /: search  Tab: switch  h/l ←/→: pane  j/k ↑/↓: navigate  Enter: select  q: quit")]
    );
    app.handle_key(KeyInput::Char('/'));
    app.handle_key(KeyInput::Char('a'));
    assert_eq!(
        view(&help_line(&app)),
        vec![
            (SpanStyle::Label, " Search: "),
            (SpanStyle::Query, "a"),
            (SpanStyle::Cursor, "_"),
            (SpanStyle::Hint, "  Esc: cancel  Enter: confirm"),
        ]
    );
    let single = App::new(vec![ModuleEntry { name: "m".to_string(), functions: vec![], selectors: vec![] }], None);
    assert_eq!(
        view(&help_line(&single)),
        vec![(SpanStyle::Hint, " /: search  Tab: switch  j/k ↑/↓: navigate  PgUp/PgDn: page  q: quit")]
    );
}
