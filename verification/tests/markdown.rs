use std::collections::VecDeque;

use mq_docs::markdown::{assemble_markdown, format_markdown, function_table_text, selector_table_text};
use mq_docs::ModuleDoc;

fn module(name: &str, symbols: Vec<[&str; 4]>, selectors: Vec<[&str; 2]>) -> ModuleDoc {
    ModuleDoc {
        name: name.to_string(),
        symbols: symbols.into_iter().map(|r| r.map(|s| s.to_string())).collect::<VecDeque<_>>(),
        selectors: selectors.into_iter().map(|r| r.map(|s| s.to_string())).collect::<VecDeque<_>>(),
    }
}

#[test]
fn function_table_input_is_tab_separated_with_a_header() {
    let docs = vec![
        module("a", vec![["`f`", "F", "`x`", "f(x)"]], vec![]),
        module("b", vec![["`g`", "G", "", "g()"]], vec![]),
    ];
    assert_eq!(
        function_table_text(&docs),
        "Function Name\tDescription\tParameters\tExample\n`f`\tF\t`x`\tf(x)\n`g`\tG\t\tg()"
    );
}

#[test]
fn function_table_input_of_no_functions_is_the_header() {
    assert_eq!(function_table_text(&[]), "Function Name\tDescription\tParameters\tExample");
}

#[test]
fn selector_table_input_is_tab_separated_with_a_header() {
    let docs = vec![module("a", vec![], vec![["`.h1`", "Heading"]]), module("b", vec![], vec![["`.code`", "Code"]])];
    assert_eq!(selector_table_text(&docs), "Selector\tDescription\n`.h1`\tHeading\n`.code`\tCode");
}

#[test]
fn assembled_markdown_without_selectors() {
    let table = vec!["| a |".to_string(), "| --- |".to_string()];
    assert_eq!(assemble_markdown(&table, &None), "| a |\n| --- |");
}

#[test]
fn assembled_markdown_with_selectors() {
    let table = vec!["T1".to_string()];
    let selectors = Some(vec!["S1".to_string(), "S2".to_string()]);
    assert_eq!(assemble_markdown(&table, &selectors), "T1\n\n## Selectors\n\nS1\nS2");
}

#[test]
fn markdown_table_of_functions() {
    let docs = vec![module("a", vec![["`add`", "Adds", "`a`, `b`", "add(a, b)"]], vec![])];
    let out = format_markdown(&docs).ok().expect("the table query succeeds");
    assert_eq!(
        out,
        "| Function Name | Description | Parameters | Example |\n| --- | --- | --- | --- |\n| `add` | Adds | `a`, `b` | add(a, b) |"
    );
}

#[test]
fn markdown_tables_of_functions_and_selectors() {
    let docs = vec![module("a", vec![["`f`", "F", "", "f()"]], vec![["`.h1`", "Heading"]])];
    let out = format_markdown(&docs).ok().expect("the table query succeeds");
    assert_eq!(
        out,
        "| Function Name | Description | Parameters | Example |\n| --- | --- | --- | --- |\n| `f` | F |  | f() |\n\n## Selectors\n\n| Selector | Description |\n| --- | --- |\n| `.h1` | Heading |"
    );
}

#[test]
fn markdown_table_escapes_pipes_in_cells() {
    let docs = vec![module("a", vec![["`or`", "a | b", "", "or()"]], vec![])];
    let out = format_markdown(&docs).ok().expect("the table query succeeds");
    assert!(out.ends_with("| `or` | a \\| b |  | or() |"), "{out}");
}
