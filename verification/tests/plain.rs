use std::collections::VecDeque;

use mq_docs::plain::format_text;
use mq_docs::ModuleDoc;

fn module(name: &str, symbols: Vec<[&str; 4]>, selectors: Vec<[&str; 2]>) -> ModuleDoc {
    ModuleDoc {
        name: name.to_string(),
        symbols: symbols.into_iter().map(|r| r.map(|s| s.to_string())).collect::<VecDeque<_>>(),
        selectors: selectors.into_iter().map(|r| r.map(|s| s.to_string())).collect::<VecDeque<_>>(),
    }
}

#[test]
fn text_of_functions_only() {
    let docs = vec![module(
        "Built-in",
        vec![["`add`", "Adds numbers", "`a`, `b`", "add(a, b)"], ["~~`old`~~", "Old one", "", "old()"]],
        vec![],
    )];
    assert_eq!(format_text(&docs), "# Adds numbers\ndef add(a, b)\n\n# Old one\ndef ~~old~~()");
}

#[test]
fn text_of_functions_and_selectors_of_several_modules() {
    let docs = vec![
        module("a", vec![["`f`", "F", "`x`", "f(x)"]], vec![[".h1", "Heading 1"]]),
        module("b", vec![["`g`", "G", "", "g()"]], vec![["`.code`", "Code block"]]),
    ];
    assert_eq!(
        format_text(&docs),
        "# F\ndef f(x)\n\n# G\ndef g()\n\n# Heading 1\nselector .h1\n\n# Code block\nselector .code"
    );
}

#[test]
fn text_of_selectors_without_functions() {
    let docs = vec![module("a", vec![], vec![["`.h1`", "H"]])];
    assert_eq!(format_text(&docs), "\n\n# H\nselector .h1");
}

#[test]
fn text_of_nothing_is_empty() {
    let docs = vec![module("a", vec![], vec![])];
    assert_eq!(format_text(&docs), "");
}

#[test]
fn text_removes_every_backtick_from_names_and_parameters() {
    let docs = vec![module("a", vec![["`a`b`", "d`e", "`p`, `q`", "x"]], vec![])];
    assert_eq!(format_text(&docs), "# d`e\ndef ab(p, q)");
}

#[test]
fn text_ignores_module_names_boundaries_and_examples() {
    let split = vec![
        module("a", vec![["`f`", "F", "`x`", "f(x)"]], vec![["`.h1`", "H"]]),
        module("b", vec![["`g`", "G", "", "g()"]], vec![]),
    ];
    let merged = vec![module("other", vec![["`f`", "F", "`x`", "changed"], ["`g`", "G", "", "else"]], vec![["`.h1`", "H"]])];
    assert_eq!(format_text(&split), format_text(&merged));
}
