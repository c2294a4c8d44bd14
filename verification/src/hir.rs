//! The calls into outside crates that loading a module makes: building the
//! high-level representation of an mq source with `mq-hir` (under a URL parsed
//! with `url`) and listing its symbols, and sorting symbols by name with
//! `itertools`.
use crate::symbols::{is_sorted_by_value, symbols_view, DocSymbol, DocSymbolKind, SymbolView};
use crate::text::occurs_at;
use itertools::Itertools;
use mq_hir::{Hir, SymbolKind};
use vstd::prelude::*;

verus! {

/// The standard modules whose text is compiled into `mq-lang` and which its
/// module resolver returns before it looks at any file (`html`, present only in
/// some builds, is left out).
pub open spec fn standard_modules() -> Seq<Seq<char>> {
    seq![
        "cbor"@,
        "csv"@,
        "fuzzy"@,
        "gen"@,
        "gron"@,
        "json"@,
        "md"@,
        "section"@,
        "semver"@,
        "test"@,
        "table"@,
        "toml"@,
        "toon"@,
        "xml"@,
        "yaml"@,
    ]
}

/// An ASCII letter, digit or `_`: a character that continues a word of mq code.
pub open spec fn word_char(c: char) -> bool {
    ('a' <= c && c <= 'z') || ('A' <= c && c <= 'Z') || ('0' <= c && c <= '9') || c == '_'
}

/// `keyword` occurs in `code` at `i` and is not continued by a word character,
/// so that it may be read as the keyword (`important` holds no `import`).
pub open spec fn keyword_at(code: Seq<char>, keyword: Seq<char>, i: int) -> bool {
    &&& occurs_at(code, keyword, i)
    &&& !(i + keyword.len() < code.len() && word_char(code[i + keyword.len()]))
}

/// At `j` the code holds one space and then the name of a standard module in
/// double quotes.
pub open spec fn names_standard_module(code: Seq<char>, j: int) -> bool {
    exists|k: int|
        0 <= k < standard_modules().len() && #[trigger] occurs_at(code, " \""@ + standard_modules()[k] + "\""@, j)
}

/// At `i` the code may include or import a module other than a standard one:
/// the keyword `include` or `import` stands there and is not followed by one
/// space and a standard module's name in double quotes.
pub open spec fn other_module_at(code: Seq<char>, i: int) -> bool {
    ||| keyword_at(code, "include"@, i) && !names_standard_module(code, i + "include"@.len())
    ||| keyword_at(code, "import"@, i) && !names_standard_module(code, i + "import"@.len())
}

/// The code may read a module other than the standard ones, which the module
/// loader can take from disk. Code that mentions `include` or `import` only as
/// `include "m"` or `import "m"` with a standard `m` (or inside longer words)
/// reads no such module.
pub open spec fn reads_other_modules(code: Seq<char>) -> bool {
    exists|i: int| #[trigger] other_module_at(code, i)
}

/// The symbols that `mq-hir` holds after the source `code` is added under the
/// URL `url` (parsed; `file:///` when absent or invalid) to a fresh
/// representation, with the built-in module loaded first when `builtin` holds:
/// each with its name, its kind (a function with its parameter names, a
/// selector, or another symbol) and its doc comment lines, in the order of the
/// symbol table.
pub uninterp spec fn loaded_symbols(url: Option<Seq<char>>, code: Seq<char>, builtin: bool) -> Seq<SymbolView>;

/// Loads a module with `mq-hir`: `Hir::default`, the `builtin.disabled` flag set
/// unless `builtin`, `Url::parse` of `url`, `Hir::add_code`, then `Hir::symbols`,
/// each symbol converted to a `DocSymbol`. The built-in module is compiled into
/// `mq-hir` and the symbol table is an insertion-ordered slot map. The lexer reads
/// `include` and `import` as keywords only as whole words, and only those two
/// reach the module loader, whose resolver returns a standard module from the
/// text compiled into `mq-lang` (whose own imports are standard modules too)
/// before it looks at any file. So unless the code may read another module, the
/// symbols are a function of the arguments. Nothing is stated of the symbols of
/// code that may read another module.
#[verifier::external_body]
pub(crate) fn load_symbols(url: Option<&str>, code: &str, builtin: bool) -> (res: Vec<DocSymbol>)
    ensures
        !reads_other_modules(code@) ==> symbols_view(res@) == loaded_symbols(
            match url {
                Some(u) => Some(u@),
                None => None,
            },
            code@,
            builtin,
        ),
{
    let mut hir = Hir::default();
    hir.builtin.disabled = !builtin;
    hir.add_code(url.and_then(|u| url::Url::parse(u).ok()), code);
    hir.symbols().map(|(_, s)| DocSymbol {
        value: s.value.as_ref().map(|v| v.to_string()),
        kind: match &s.kind {
            SymbolKind::Function(ps) => DocSymbolKind::Function(ps.iter().map(|p| p.name.to_string()).collect()),
            SymbolKind::Selector(_) => DocSymbolKind::Selector,
            _ => DocSymbolKind::Other,
        },
        doc: s.doc.iter().map(|(_, d)| d.clone()).collect(),
    }).collect()
}

/// `Itertools::sorted_by_key` with the symbol's name as key: a stable sort
/// (`slice::sort_by_key`) by `Option<String>`, whose order puts `None` first
/// and orders strings lexicographically by their bytes.
#[verifier::external_body]
pub(crate) fn sort_by_value(symbols: Vec<DocSymbol>) -> (res: Vec<DocSymbol>)
    ensures
        is_sorted_by_value(symbols_view(res@), symbols_view(symbols@)),
{
    symbols.into_iter().sorted_by_key(|s| s.value.clone()).collect()
}

} // verus!
