use mq_docs::symbols::{deprecation_marker, extract_selectors, extract_symbols, DocSymbol, DocSymbolKind};

fn function(name: &str, params: &[&str], doc: &[&str]) -> DocSymbol {
    DocSymbol {
        value: Some(name.to_string()),
        kind: DocSymbolKind::Function(params.iter().map(|p| p.to_string()).collect()),
        doc: doc.iter().map(|d| d.to_string()).collect(),
    }
}

fn selector(name: &str, doc: &[&str]) -> DocSymbol {
    DocSymbol {
        value: Some(name.to_string()),
        kind: DocSymbolKind::Selector,
        doc: doc.iter().map(|d| d.to_string()).collect(),
    }
}

fn strings(r: &[String]) -> Vec<&str> {
    r.iter().map(|s| s.as_str()).collect()
}

#[test]
fn function_rows_are_sorted_by_name_and_skip_internal_functions() {
    let raw = vec![
        function("zeta", &["a", "b"], &[" Last one", " second line"]),
        function("_hidden", &[], &[" internal"]),
        function("alpha", &[], &[]),
        function("Beta", &["x"], &[" Upper case sorts first"]),
        DocSymbol { value: None, kind: DocSymbolKind::Function(vec![]), doc: vec![] },
        DocSymbol { value: Some("other".to_string()), kind: DocSymbolKind::Other, doc: vec![] },
        selector(".h1", &[" Heading"]),
    ];
    let rows = extract_symbols(&raw);
    let rows: Vec<Vec<&str>> = rows.iter().map(|r| strings(r)).collect();
    assert_eq!(
        rows,
        vec![
            vec!["`Beta`", " Upper case sorts first", "`x`", "Beta(x)"],
            vec!["`alpha`", "", "", "alpha()"],
            vec!["`zeta`", " Last one\n second line", "`a`, `b`", "zeta(a, b)"],
        ]
    );
}

#[test]
fn deprecated_functions_are_struck_through() {
    let raw = vec![
        function("old", &["v"], &[" Does things.", " Deprecated: use new"]),
        function("new", &[], &[" Not deprecated, but mentions it"]),
        function("older", &[], &["  DEPRECATED  "]),
    ];
    let rows = extract_symbols(&raw);
    let names: Vec<&str> = rows.iter().map(|r| r[0].as_str()).collect();
    assert_eq!(names, vec!["`new`", "~~`old`~~", "~~`older`~~"]);
    assert_eq!(rows[1][1], " Does things.\n Deprecated: use new");
}

#[test]
fn sorting_keeps_the_order_of_equal_names() {
    let raw = vec![function("f", &["first"], &[]), function("e", &[], &[]), function("f", &["second"], &[])];
    let rows = extract_symbols(&raw);
    let examples: Vec<&str> = rows.iter().map(|r| r[3].as_str()).collect();
    assert_eq!(examples, vec!["e()", "f(first)", "f(second)"]);
}

#[test]
fn selector_rows_are_sorted_by_name() {
    let raw = vec![
        selector(".text", &[" Text"]),
        function("f", &[], &[]),
        selector(".h1", &[" Heading", " level 1"]),
        DocSymbol { value: None, kind: DocSymbolKind::Selector, doc: vec![] },
    ];
    let rows = extract_selectors(&raw);
    let rows: Vec<Vec<&str>> = rows.iter().map(|r| strings(r)).collect();
    assert_eq!(rows, vec![vec!["`.h1`", " Heading\n level 1"], vec!["`.text`", " Text"]]);
}

#[test]
fn no_symbols_give_no_rows() {
    assert!(extract_symbols(&vec![]).is_empty());
    assert!(extract_selectors(&vec![]).is_empty());
}

#[test]
fn names_sort_by_their_bytes() {
    let raw = vec![function("é", &[], &[]), function("z", &[], &[]), function("Z", &[], &[]), function("a1", &[], &[]), function("a", &[], &[])];
    let rows = extract_symbols(&raw);
    let names: Vec<&str> = rows.iter().map(|r| r[0].as_str()).collect();
    assert_eq!(names, vec!["`Z`", "`a`", "`a1`", "`z`", "`é`"]);
}

#[test]
fn deprecation_markers() {
    assert!(deprecation_marker("deprecated"));
    assert!(deprecation_marker("\u{a0} Deprecated: use f2"));
    assert!(deprecation_marker(" DEPRECATED since 1.0"));
    assert!(!deprecation_marker("Deprecatedly"));
    assert!(!deprecation_marker("This is deprecated"));
    assert!(!deprecation_marker(""));
}
