//! Documentation generator for the functions, macros and selectors of the mq
//! query language: it gathers the documented symbols of the built-in library, of
//! source files and of named modules, and renders them as Markdown, plain text or
//! a single HTML page. It also keeps the state of an interactive documentation
//! browser (`browser`, `detail`, `screen`) for a terminal front end to draw.
use std::collections::VecDeque;
use vstd::prelude::*;

pub mod browser;
pub mod detail;
pub mod generate;
pub mod hir;
pub mod html;
pub mod markdown;
pub mod plain;
pub mod screen;
pub mod symbols;
pub mod template;
pub mod text;

pub use generate::generate_docs;
pub use markdown::DocsError;

verus! {

/// Documentation output format.
#[derive(Clone, Copy, Debug, PartialEq, Eq, Structural)]
pub enum DocFormat {
    Markdown,
    Text,
    Html,
}

impl Default for DocFormat {
    fn default() -> (res: Self)
        ensures
            res == DocFormat::Markdown,
    {
        DocFormat::Markdown
    }
}

/// A group of documented symbols belonging to a single module or file.
///
/// Each function row holds the rendered name (`` `f` ``, or `` ~~`f`~~ `` when
/// deprecated), the description, the parameter list (`` `a`, `b` ``) and an
/// example call (`f(a, b)`); each selector row holds the rendered name and the
/// description.
pub struct ModuleDoc {
    pub name: String,
    pub symbols: VecDeque<[String; 4]>,
    pub selectors: VecDeque<[String; 2]>,
}

/// The function rows of all modules, module after module.
pub open spec fn all_symbols(docs: Seq<ModuleDoc>) -> Seq<[String; 4]>
    decreases docs.len(),
{
    if docs.len() == 0 {
        Seq::empty()
    } else {
        all_symbols(docs.drop_last()) + docs.last().symbols@
    }
}

/// The selector rows of all modules, module after module.
pub open spec fn all_selectors(docs: Seq<ModuleDoc>) -> Seq<[String; 2]>
    decreases docs.len(),
{
    if docs.len() == 0 {
        Seq::empty()
    } else {
        all_selectors(docs.drop_last()) + docs.last().selectors@
    }
}

} // verus!
