use mq_docs::generate::{generate_docs, plan_modules, BUILTIN_ALONE_NAME, BUILTIN_NAME};
use mq_docs::DocFormat;

fn names(files: &[(&str, &str)]) -> Option<Vec<(String, String)>> {
    Some(files.iter().map(|(n, c)| (n.to_string(), c.to_string())).collect())
}

#[test]
fn without_files_or_modules_only_the_builtins_are_planned() {
    for include_builtin in [false, true] {
        let plan = plan_modules(&None, &None, include_builtin);
        assert_eq!(plan.len(), 1);
        assert_eq!(plan[0].name, "Built-in functions and macros");
        assert_eq!(plan[0].name, BUILTIN_ALONE_NAME);
        assert!(plan[0].builtin);
        assert!(plan[0].url.is_none());
        assert_eq!(plan[0].code, "");
    }
    let plan = plan_modules(&Some(vec![]), &Some(vec![]), true);
    assert_eq!(plan.len(), 1);
    assert_eq!(plan[0].name, BUILTIN_ALONE_NAME);
}

#[test]
fn files_then_modules_are_planned_after_the_builtins() {
    let plan = plan_modules(&Some(vec!["csv".to_string()]), &names(&[("lib.mq", "def f(): 1;")]), true);
    assert_eq!(plan.len(), 3);
    assert_eq!(plan[0].name, "Built-in");
    assert_eq!(plan[0].name, BUILTIN_NAME);
    assert!(plan[0].builtin);
    assert_eq!(plan[1].name, "lib.mq");
    assert_eq!(plan[1].url.as_deref(), Some("file:///lib.mq"));
    assert_eq!(plan[1].code, "def f(): 1;");
    assert!(!plan[1].builtin);
    assert_eq!(plan[2].name, "csv");
    assert_eq!(plan[2].code, "include \"csv\"");
    assert!(plan[2].url.is_none());
    assert!(!plan[2].builtin);
}

#[test]
fn without_builtins_only_the_given_modules_are_planned() {
    let plan = plan_modules(&Some(vec!["a".to_string(), "b".to_string()]), &None, false);
    let got: Vec<&str> = plan.iter().map(|m| m.name.as_str()).collect();
    assert_eq!(got, vec!["a", "b"]);
}

#[test]
fn text_documentation_of_a_file() {
    let files = names(&[("lib.mq", "# Adds one\ndef inc(x): x + 1;\n# Internal\ndef _helper(): 1;")]);
    let out = generate_docs(&None, &files, &DocFormat::Text, false).ok().expect("text never fails");
    assert_eq!(out, "#  Adds one\ndef inc(x)");
}

#[test]
fn html_documentation_of_a_file() {
    let files = names(&[("lib.mq", "# Adds one\ndef inc(x): x + 1;")]);
    let out = generate_docs(&None, &files, &DocFormat::Html, false).ok().expect("html never fails");
    assert!(out.starts_with("<!DOCTYPE html>"));
    assert!(out.contains("<td><code>inc</code></td>"));
    assert!(out.contains("<span class=\"sidebar-label\">lib.mq</span><span class=\"sidebar-count\">1</span>"));
}

#[test]
fn markdown_documentation_of_a_file() {
    let files = names(&[("lib.mq", "# Adds one\ndef inc(x): x + 1;")]);
    let out = generate_docs(&None, &files, &DocFormat::Markdown, false).ok().expect("the table query succeeds");
    assert_eq!(
        out,
        "| Function Name | Description | Parameters | Example |\n| --- | --- | --- | --- |\n| `inc` |  Adds one | `x` | inc(x) |"
    );
}

#[test]
fn builtin_documentation_lists_functions() {
    let out = generate_docs(&None, &None, &DocFormat::Text, false).ok().expect("text never fails");
    assert!(out.contains("\ndef "));
    assert!(out.starts_with("# "));
}

#[test]
fn builtins_come_first_when_included() {
    let files = names(&[("lib.mq", "# Mine\ndef mine(): 1;")]);
    let alone = generate_docs(&None, &files, &DocFormat::Text, false).ok().unwrap();
    assert_eq!(alone, "#  Mine\ndef mine()");
    let with_builtin = generate_docs(&None, &files, &DocFormat::Text, true).ok().unwrap();
    assert!(with_builtin.len() > alone.len());
    assert!(with_builtin.contains("#  Mine\ndef mine()"));
    assert!(!with_builtin.starts_with("#  Mine"));
}

#[test]
fn an_unknown_module_documents_nothing() {
    let out = generate_docs(&Some(vec!["no_such_module_xyz".to_string()]), &None, &DocFormat::Text, false)
        .ok()
        .unwrap();
    assert_eq!(out, "");
}

#[test]
fn default_format_is_markdown() {
    assert_eq!(DocFormat::default(), DocFormat::Markdown);
}

#[test]
fn a_file_is_documented_without_the_builtins_unless_asked() {
    let files = names(&[("a.mq", "def only(): 1;")]);
    let out = generate_docs(&None, &files, &DocFormat::Text, false).ok().unwrap();
    assert_eq!(out, "# \ndef only()");
}

#[test]
fn a_standard_module_is_documented_by_name() {
    let out = generate_docs(&Some(vec!["csv".to_string()]), &None, &DocFormat::Text, false).ok().unwrap();
    assert!(out.contains("\ndef csv_parse(input, has_header)"), "{out}");
    assert!(!out.contains("def _csv_parse("));
}

#[test]
fn words_that_only_contain_a_keyword_change_nothing() {
    let files = names(&[("a.mq", "# important: includes nothing\ndef only(): 1;")]);
    let out = generate_docs(&None, &files, &DocFormat::Text, false).ok().unwrap();
    assert_eq!(out, "#  important: includes nothing\ndef only()");
}
