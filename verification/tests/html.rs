use std::collections::VecDeque;

use mq_docs::html::{
    build_module_page, build_selector_page, build_selector_table_rows, build_table_rows, escape_html,
    format_html, module_icon, selector_icon, svg_icon,
};
use mq_docs::ModuleDoc;

const SVG_HEAD: &str = "<svg viewBox=\"0 0 24 24\" fill=\"none\" stroke=\"currentColor\" stroke-width=\"2\" stroke-linecap=\"round\" stroke-linejoin=\"round\">";

fn row4(a: &str, b: &str, c: &str, d: &str) -> [String; 4] {
    [a.to_string(), b.to_string(), c.to_string(), d.to_string()]
}

fn row2(a: &str, b: &str) -> [String; 2] {
    [a.to_string(), b.to_string()]
}

fn function_row_html(name: &str, desc: &str, args: &str, example: &str) -> String {
    format!(
        "                <tr>\n                  <td>{name}</td>\n                  <td>{desc}</td>\n                  <td>{args}</td>\n                  <td><code>{example}</code></td>\n                </tr>"
    )
}

fn selector_row_html(name: &str, desc: &str) -> String {
    format!("                <tr>\n                  <td>{name}</td>\n                  <td>{desc}</td>\n                </tr>")
}

#[test]
fn escape_html_replaces_the_four_special_characters() {
    assert_eq!(escape_html("a<b>&\"c\""), "a&lt;b&gt;&amp;&quot;c&quot;");
}

#[test]
fn escape_html_keeps_other_text() {
    assert_eq!(escape_html(""), "");
    assert_eq!(escape_html("plain 'text' ü"), "plain 'text' ü");
}

#[test]
fn escape_html_escapes_an_existing_entity_again() {
    assert_eq!(escape_html("&amp;"), "&amp;amp;");
}

#[test]
fn escaped_text_holds_no_markup_characters() {
    let out = escape_html("<script>alert(\"x\")</script> & more");
    assert!(!out.contains('<'));
    assert!(!out.contains('>'));
    assert!(!out.contains('"'));
    assert_eq!(out, "&lt;script&gt;alert(&quot;x&quot;)&lt;/script&gt; &amp; more");
}

#[test]
fn escaping_is_undone_by_replacing_the_entities_back() {
    let text = "if a < b && c > \"d\" then &amp;";
    let escaped = escape_html(text);
    let back = escaped.replace("&quot;", "\"").replace("&gt;", ">").replace("&lt;", "<").replace("&amp;", "&");
    assert_eq!(back, text);
}

#[test]
fn svg_icon_wraps_its_shapes() {
    assert_eq!(svg_icon("<circle/>"), format!("{SVG_HEAD}<circle/></svg>"));
}

#[test]
fn module_icon_is_a_cube_for_builtin_modules() {
    let cube = module_icon("Built-in functions and macros");
    assert!(cube.starts_with(SVG_HEAD));
    assert!(cube.ends_with("</svg>"));
    assert!(!cube.contains("<line x1=\"16.5\""));
    assert_eq!(cube, module_icon("Built-in"));
}

#[test]
fn module_icon_is_a_package_for_other_modules() {
    let package = module_icon("lib.mq");
    assert!(package.starts_with(&format!("{SVG_HEAD}<line x1=\"16.5\" y1=\"9.4\" x2=\"7.5\" y2=\"4.21\"/>")));
    assert_ne!(package, module_icon("Built-in"));
    assert_eq!(package, module_icon("built-in"));
}

#[test]
fn selector_icon_is_a_target() {
    assert_eq!(
        selector_icon(),
        format!(
            "{SVG_HEAD}<circle cx=\"12\" cy=\"12\" r=\"10\"/><line x1=\"22\" y1=\"12\" x2=\"18\" y2=\"12\"/><line x1=\"6\" y1=\"12\" x2=\"2\" y2=\"12\"/><line x1=\"12\" y1=\"6\" x2=\"12\" y2=\"2\"/><line x1=\"12\" y1=\"22\" x2=\"12\" y2=\"18\"/></svg>"
        )
    );
}

#[test]
fn table_rows_of_no_symbols_are_empty() {
    assert_eq!(build_table_rows(&VecDeque::new()), "");
    assert_eq!(build_selector_table_rows(&VecDeque::new()), "");
}

#[test]
fn table_row_of_a_function() {
    let rows = VecDeque::from(vec![row4("`add`", "Adds <two> numbers", "`a`, `b`", "add(a, b)")]);
    assert_eq!(
        build_table_rows(&rows),
        function_row_html("<code>add</code>", "Adds &lt;two&gt; numbers", "<code>a</code>, <code>b</code>", "add(a, b)")
    );
}

#[test]
fn table_row_of_a_deprecated_function_is_struck_through() {
    let rows = VecDeque::from(vec![row4("~~`old`~~", "", "", "old()")]);
    assert_eq!(build_table_rows(&rows), function_row_html("<del><code>old</code></del>", "", "", "old()"));
}

#[test]
fn table_rows_are_joined_by_newlines() {
    let rows = VecDeque::from(vec![row4("`f`", "d1", "`x`", "f(x)"), row4("`g`", "d2", "", "g()")]);
    let expected = format!(
        "{}\n{}",
        function_row_html("<code>f</code>", "d1", "<code>x</code>", "f(x)"),
        function_row_html("<code>g</code>", "d2", "", "g()")
    );
    assert_eq!(build_table_rows(&rows), expected);
}

#[test]
fn table_row_escapes_names_and_examples() {
    let rows = VecDeque::from(vec![row4("`<`", "less & more", "`a&b`", "<(a&b)")]);
    assert_eq!(
        build_table_rows(&rows),
        function_row_html("<code>&lt;</code>", "less &amp; more", "<code>a&amp;b</code>", "&lt;(a&amp;b)")
    );
}

#[test]
fn selector_table_row() {
    let rows = VecDeque::from(vec![row2("`.h1`", "Heading \"1\""), row2("`.code`", "Code")]);
    let expected = format!(
        "{}\n{}",
        selector_row_html("<code>.h1</code>", "Heading &quot;1&quot;"),
        selector_row_html("<code>.code</code>", "Code")
    );
    assert_eq!(build_selector_table_rows(&rows), expected);
}

fn function_page(class: &str, id: &str, count: usize, rows: &str) -> String {
    format!(
        "<div class=\"module-page{class}\" id=\"{id}\">\n  <div class=\"search-box\">\n    <svg class=\"search-icon\" viewBox=\"0 0 24 24\" fill=\"none\" stroke=\"currentColor\" stroke-width=\"2\" stroke-linecap=\"round\" stroke-linejoin=\"round\"><circle cx=\"11\" cy=\"11\" r=\"8\"/><line x1=\"21\" y1=\"21\" x2=\"16.65\" y2=\"16.65\"/></svg>\n    <input type=\"text\" class=\"search-input\" placeholder=\"Filter functions...\" />\n  </div>\n  <p class=\"count\"><span class=\"count-num\">{count}</span> functions</p>\n  <table>\n    <thead><tr><th>Function</th><th>Description</th><th>Parameters</th><th>Example</th></tr></thead>\n    <tbody>\n{rows}\n    </tbody>\n  </table>\n</div>"
    )
}

fn selector_page(class: &str, id: &str, count: usize, rows: &str) -> String {
    format!(
        "<div class=\"module-page{class}\" id=\"{id}\">\n  <div class=\"search-box\">\n    <svg class=\"search-icon\" viewBox=\"0 0 24 24\" fill=\"none\" stroke=\"currentColor\" stroke-width=\"2\" stroke-linecap=\"round\" stroke-linejoin=\"round\"><circle cx=\"11\" cy=\"11\" r=\"8\"/><line x1=\"21\" y1=\"21\" x2=\"16.65\" y2=\"16.65\"/></svg>\n    <input type=\"text\" class=\"search-input\" placeholder=\"Filter selectors...\" />\n  </div>\n  <p class=\"count\"><span class=\"count-num\">{count}</span> selectors</p>\n  <table>\n    <thead><tr><th>Selector</th><th>Description</th></tr></thead>\n    <tbody>\n{rows}\n    </tbody>\n  </table>\n</div>"
    )
}

#[test]
fn module_page_active() {
    let rows = VecDeque::from(vec![row4("`f`", "d", "`x`", "f(x)")]);
    let expected = function_page(" active", "m1", 1, &function_row_html("<code>f</code>", "d", "<code>x</code>", "f(x)"));
    assert_eq!(build_module_page("m1", &rows, true), expected);
}

#[test]
fn module_page_inactive_and_empty() {
    assert_eq!(build_module_page("all", &VecDeque::new(), false), function_page("", "all", 0, ""));
}

#[test]
fn module_page_counts_many_rows() {
    let rows: VecDeque<[String; 4]> = (0..12).map(|i| row4(&format!("`f{i}`"), "", "", &format!("f{i}()"))).collect();
    let page = build_module_page("m2", &rows, false);
    assert!(page.contains("<span class=\"count-num\">12</span> functions"));
}

#[test]
fn selector_page_active() {
    let rows = VecDeque::from(vec![row2("`.h1`", "Heading")]);
    let expected = selector_page(" active", "sel-0", 1, &selector_row_html("<code>.h1</code>", "Heading"));
    assert_eq!(build_selector_page("sel-0", &rows, true), expected);
}

#[test]
fn selector_page_inactive() {
    assert_eq!(build_selector_page("s", &VecDeque::new(), false), selector_page("", "s", 0, ""));
}

fn module(name: &str, symbols: Vec<[String; 4]>, selectors: Vec<[String; 2]>) -> ModuleDoc {
    ModuleDoc { name: name.to_string(), symbols: VecDeque::from(symbols), selectors: VecDeque::from(selectors) }
}

#[test]
fn html_page_of_one_module() {
    let docs = vec![module("Built-in", vec![row4("`f`", "d", "`x`", "f(x)")], vec![])];
    let out = format_html(&docs);
    assert!(out.starts_with("<!DOCTYPE html>"));
    assert!(out.ends_with("</html>"));
    assert!(out.contains(&function_page(" active", "mod-all", 1, &function_row_html("<code>f</code>", "d", "<code>x</code>", "f(x)"))));
    assert!(!out.contains("data-module=\"mod-0\""));
    assert!(!out.contains("Filter selectors..."));
    assert!(out.contains(&format!(
        "<a class=\"sidebar-link active\" href=\"#\" data-module=\"mod-all\"><span class=\"sidebar-icon\">{}</span><span class=\"sidebar-label\">Built-in</span><span class=\"sidebar-count\">1</span></a>\n",
        module_icon("Built-in")
    )));
}

#[test]
fn html_page_of_several_modules_has_an_all_page() {
    let docs = vec![
        module("Built-in", vec![row4("`f`", "d", "", "f()")], vec![row2("`.h1`", "Heading")]),
        module("lib <x>.mq", vec![row4("`g`", "e", "", "g()"), row4("`h`", "", "", "h()")], vec![]),
    ];
    let out = format_html(&docs);
    assert!(out.contains("<a class=\"sidebar-link active\" href=\"#\" data-module=\"mod-all\">"));
    assert!(out.contains("<span class=\"sidebar-label\">All</span><span class=\"sidebar-count\">3</span>"));
    assert!(out.contains("<span class=\"sidebar-label\">lib &lt;x&gt;.mq</span><span class=\"sidebar-count\">2</span>"));
    assert!(out.contains("<div class=\"module-page active\" id=\"mod-all\">"));
    assert!(out.contains("<div class=\"module-page\" id=\"mod-0\">"));
    assert!(out.contains("<div class=\"module-page\" id=\"mod-1\">"));
    assert!(out.contains("<div class=\"module-page\" id=\"sel-0\">"));
    assert!(!out.contains("id=\"sel-1\""));
    assert!(out.contains("<div class=\"sidebar-section-title\">Selectors</div>"));
}

#[test]
fn the_active_flag_changes_only_the_page_class() {
    let rows = VecDeque::from(vec![row4("`f`", "d", "`x`", "f(x)")]);
    let active = build_module_page("mod-1", &rows, true);
    let inactive = build_module_page("mod-1", &rows, false);
    assert_eq!(active, inactive.replacen("module-page\"", "module-page active\"", 1));
    let sels = VecDeque::from(vec![row2("`.h1`", "H")]);
    assert_eq!(
        build_selector_page("sel-0", &sels, true),
        build_selector_page("sel-0", &sels, false).replacen("module-page\"", "module-page active\"", 1)
    );
}

#[test]
fn table_rows_of_two_lists_are_joined_by_a_newline() {
    let xs = VecDeque::from(vec![row4("`f`", "d1", "`x`", "f(x)")]);
    let ys = VecDeque::from(vec![row4("`g`", "d2", "", "g()"), row4("`h`", "", "`a`, `b`", "h(a, b)")]);
    let both: VecDeque<[String; 4]> = xs.iter().chain(ys.iter()).cloned().collect();
    assert_eq!(build_table_rows(&both), format!("{}\n{}", build_table_rows(&xs), build_table_rows(&ys)));
}
