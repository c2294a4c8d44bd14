use mq_docs::browser::{DocEntry, ExampleEntry, ParamEntry};
use mq_docs::detail::{detail_label, entry_detail_lines, is_deprecated, Segment, SpanStyle};

fn entry(name: &str, description: &str) -> DocEntry {
    DocEntry {
        name: name.to_string(),
        kind: "function".to_string(),
        params: vec![],
        returns: "string".to_string(),
        description: description.to_string(),
        examples: vec![],
        capability: None,
        related_module: None,
    }
}

fn render(lines: &[Vec<Segment>]) -> Vec<Vec<(SpanStyle, String)>> {
    lines.iter().map(|l| l.iter().map(|s| (s.style, s.text.clone())).collect()).collect()
}

fn one(style: SpanStyle, text: &str) -> Vec<(SpanStyle, String)> {
    vec![(style, text.to_string())]
}

fn two(s1: SpanStyle, t1: &str, s2: SpanStyle, t2: &str) -> Vec<(SpanStyle, String)> {
    vec![(s1, t1.to_string()), (s2, t2.to_string())]
}

use SpanStyle::{CapabilityLabel, Code, Label, Name, Deprecated, Output, Plain};

#[test]
fn detail_of_a_bare_entry() {
    let e = entry("len", "");
    assert_eq!(
        render(&entry_detail_lines(&e, "Function:    ")),
        vec![
            two(Label, "Function:    ", Name, "len"),
            one(Plain, ""),
            one(Label, "Description"),
            one(Plain, "  —"),
            one(Plain, ""),
            two(Label, "Parameters:  ", Plain, "—"),
            two(Label, "Returns:     ", Plain, "string"),
        ]
    );
}

#[test]
fn detail_of_a_full_entry() {
    let e = DocEntry {
        name: "read".to_string(),
        kind: "function".to_string(),
        params: vec![
            ParamEntry { name: "path".to_string(), param_type: "string".to_string() },
            ParamEntry { name: "mode".to_string(), param_type: "symbol".to_string() },
        ],
        returns: "string".to_string(),
        description: "Reads a file.\r\nDeprecated: use load".to_string(),
        examples: vec![
            ExampleEntry { code: "read(\"a\")".to_string(), expected: "x\ny".to_string() },
            ExampleEntry { code: "a\nb".to_string(), expected: "".to_string() },
        ],
        capability: Some("file-io".to_string()),
        related_module: Some("fs".to_string()),
    };
    assert!(is_deprecated(&e));
    assert_eq!(
        render(&entry_detail_lines(&e, "Function:    ")),
        vec![
            two(Label, "Function:    ", Name, "read"),
            one(Deprecated, "             ⚠ Deprecated"),
            one(Plain, ""),
            one(Label, "Description"),
            one(Plain, "  Reads a file."),
            one(Plain, "  Deprecated: use load"),
            one(Plain, ""),
            two(Label, "Parameters:  ", Plain, "path: string, mode: symbol"),
            two(Label, "Returns:     ", Plain, "string"),
            one(Plain, ""),
            two(Label, "Module:      ", Plain, "import \"fs\" | fs::read(...)"),
            one(Plain, ""),
            two(
                CapabilityLabel,
                "Capability:  ",
                Plain,
                "requires `file-io` (not available via the hosted Web API/playground)"
            ),
            one(Plain, ""),
            one(Label, "Examples"),
            one(Code, "  read(\"a\")"),
            one(Output, "  #=> x"),
            one(Output, "      y"),
            one(Code, "  a"),
            one(Code, "  b"),
        ]
    );
}

#[test]
fn deprecation_is_read_from_description_lines() {
    assert!(is_deprecated(&entry("f", "Deprecated")));
    assert!(is_deprecated(&entry("f", "Old.\n  DEPRECATED  ")));
    assert!(is_deprecated(&entry("f", "deprecated since 2.0")));
    assert!(!is_deprecated(&entry("f", "Not deprecated")));
    assert!(!is_deprecated(&entry("f", "Deprecatedly")));
    assert!(!is_deprecated(&entry("f", "")));
}

#[test]
fn the_heading_label_follows_the_kind() {
    let mut e = entry("f", "");
    assert_eq!(detail_label(&e), "Function:    ");
    e.kind = "selector".to_string();
    assert_eq!(detail_label(&e), "Selector:    ");
    e.kind = "Selector".to_string();
    assert_eq!(detail_label(&e), "Function:    ");
}
