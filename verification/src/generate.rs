//! Which modules are documented, how each is loaded, and the rendering in the
//! requested format.
use crate::hir::{
    keyword_at, load_symbols, loaded_symbols, names_standard_module, other_module_at, reads_other_modules,
    standard_modules,
};
use crate::html::{format_html, format_html_spec};
use crate::markdown::{format_markdown, markdown_output, DocsError};
use crate::plain::{format_text, format_text_spec};
use crate::symbols::{
    extract_selectors, extract_symbols, function_rows, is_sorted_by_value, rows2_view, rows4_view,
    selector_rows, symbols_view, SymbolView,
};
use crate::{DocFormat, ModuleDoc};
use crate::text::occurs_at;
use vstd::prelude::*;
use vstd::string::StringExecFns;

verus! {

/// The name of the module of built-in functions when it is documented alone.
pub const BUILTIN_ALONE_NAME: &'static str = "Built-in functions and macros";

/// The name of the module of built-in functions when it is documented beside
/// files or modules.
pub const BUILTIN_NAME: &'static str = "Built-in";

/// A module to document: its name, the URL of its source if it has one, its mq
/// code, and whether the built-in functions are loaded with it.
pub struct ModuleSource {
    pub name: String,
    pub url: Option<String>,
    pub code: String,
    pub builtin: bool,
}

/// A module to document, as a mathematical value.
pub struct SourceView {
    pub name: Seq<char>,
    pub url: Option<Seq<char>>,
    pub code: Seq<char>,
    pub builtin: bool,
}

impl View for ModuleSource {
    type V = SourceView;

    open spec fn view(&self) -> SourceView {
        SourceView {
            name: self.name@,
            url: match self.url {
                Some(u) => Some(u@),
                None => None,
            },
            code: self.code@,
            builtin: self.builtin,
        }
    }
}

/// The views of a sequence of modules to document.
pub open spec fn sources_view(v: Seq<ModuleSource>) -> Seq<SourceView> {
    v.map_values(|s: ModuleSource| s@)
}

/// The module of built-in functions under the given name: empty code, built-in
/// functions loaded.
pub open spec fn builtin_source(name: Seq<char>) -> SourceView {
    SourceView { name, url: None, code: Seq::empty(), builtin: true }
}

/// The module of a file: named after the file, with the URL `file:///` followed
/// by the file name, its content as code, and no built-in functions.
pub open spec fn file_source(f: (String, String)) -> SourceView {
    SourceView { name: f.0@, url: Some("file:///"@ + f.0@), code: f.1@, builtin: false }
}

/// The module loaded by name: its name, no URL, the code `include "name"`, and no
/// built-in functions.
pub open spec fn include_source(name: Seq<char>) -> SourceView {
    SourceView { name, url: None, code: "include \""@ + name + "\""@, builtin: false }
}

/// The modules of the given files, in order.
pub open spec fn file_sources(files: Seq<(String, String)>) -> Seq<SourceView>
    decreases files.len(),
{
    if files.len() == 0 {
        Seq::empty()
    } else {
        file_sources(files.drop_last()).push(file_source(files.last()))
    }
}

/// The modules loaded by the given names, in order.
pub open spec fn include_sources(names: Seq<String>) -> Seq<SourceView>
    decreases names.len(),
{
    if names.len() == 0 {
        Seq::empty()
    } else {
        include_sources(names.drop_last()).push(include_source(names.last()@))
    }
}

/// The modules to document. When some file or some module name is given: the
/// built-in functions first if asked for (as `Built-in`), then the files, then
/// the named modules. Otherwise only the built-in functions (as `Built-in
/// functions and macros`).
pub open spec fn planned_sources(
    module_names: Option<Vec<String>>,
    files: Option<Vec<(String, String)>>,
    include_builtin: bool,
) -> Seq<SourceView> {
    let has_files = files matches Some(f) && f@.len() > 0;
    let has_modules = module_names matches Some(m) && m@.len() > 0;
    if has_files || has_modules {
        let builtin = if include_builtin {
            seq![builtin_source(BUILTIN_NAME@)]
        } else {
            Seq::empty()
        };
        let from_files = match files {
            Some(f) => file_sources(f@),
            None => Seq::empty(),
        };
        let from_names = match module_names {
            Some(m) => include_sources(m@),
            None => Seq::empty(),
        };
        builtin + from_files + from_names
    } else {
        seq![builtin_source(BUILTIN_ALONE_NAME@)]
    }
}

/// `doc` documents the module `src` whose loaded symbols are `raw`: it bears the
/// module's name, and its rows are those of `raw` sorted by name.
pub open spec fn documents_symbols(doc: ModuleDoc, src: SourceView, raw: Seq<SymbolView>) -> bool {
    &&& doc.name@ == src.name
    &&& exists|sorted: Seq<SymbolView>|
        is_sorted_by_value(sorted, raw) && rows4_view(doc.symbols@) == function_rows(sorted)
    &&& exists|sorted: Seq<SymbolView>|
        is_sorted_by_value(sorted, raw) && rows2_view(doc.selectors@) == selector_rows(sorted)
}

/// `doc` documents the module `src`: its rows come from the symbols that
/// loading it gave, and, when its code reads no module other than the standard
/// ones, those are the symbols that `mq-hir` loads for its URL, code and
/// built-in flag.
pub open spec fn documents(doc: ModuleDoc, src: SourceView) -> bool {
    &&& exists|raw: Seq<SymbolView>| #[trigger] documents_symbols(doc, src, raw)
    &&& !reads_other_modules(src.code) ==> documents_symbols(doc, src, loaded_symbols(src.url, src.code, src.builtin))
}

/// Each of `docs` documents the module to document at the same position.
pub open spec fn documents_all(docs: Seq<ModuleDoc>, plan: Seq<SourceView>) -> bool {
    &&& docs.len() == plan.len()
    &&& forall|i: int| 0 <= i < docs.len() ==> documents(#[trigger] docs[i], plan[i])
}

/// `out` renders `docs` in `format`; for Markdown, as the table query renders
/// the tables.
pub open spec fn renders(format: DocFormat, docs: Seq<ModuleDoc>, out: Seq<char>) -> bool {
    match format {
        DocFormat::Text => out == format_text_spec(docs),
        DocFormat::Html => out == format_html_spec(docs),
        DocFormat::Markdown => markdown_output(docs) == Some(out),
    }
}

/// `res` is the rendering of `docs` in `format`: the text, or the failure of the
/// table query for Markdown.
pub open spec fn rendering(format: DocFormat, docs: Seq<ModuleDoc>, res: Result<String, DocsError>) -> bool {
    match res {
        Ok(out) => renders(format, docs, out@),
        Err(_) => format == DocFormat::Markdown && markdown_output(docs) is None,
    }
}

/// Some module is always documented.
pub proof fn lemma_planned_nonempty(
    module_names: Option<Vec<String>>,
    files: Option<Vec<(String, String)>>,
    include_builtin: bool,
)
    ensures
        planned_sources(module_names, files, include_builtin).len() > 0,
{
    let has_files = files matches Some(f) && f@.len() > 0;
    let has_modules = module_names matches Some(m) && m@.len() > 0;
    if has_files {
        lemma_file_sources_len(files.unwrap()@);
    }
    if has_modules {
        lemma_include_sources_len(module_names.unwrap()@);
    }
}

/// With no file and no module name given (each list absent or empty), only the
/// built-in module is documented, whether or not the built-in functions were
/// asked for.
pub proof fn lemma_builtin_flag_alone_ignored(
    module_names: Option<Vec<String>>,
    files: Option<Vec<(String, String)>>,
    include_builtin: bool,
)
    requires
        !(files matches Some(f) && f@.len() > 0),
        !(module_names matches Some(m) && m@.len() > 0),
    ensures
        planned_sources(module_names, files, include_builtin) == planned_sources(None, None, false),
        planned_sources(module_names, files, include_builtin) == seq![builtin_source(BUILTIN_ALONE_NAME@)],
{
}

/// No letter `i` of `s` is followed by `n` or `m`, within `s` or at its end.
spec fn no_keyword_start(s: Seq<char>) -> bool {
    forall|j: int| 0 <= j < s.len() && #[trigger] s[j] == 'i' ==> j + 1 < s.len() && s[j + 1] != 'n' && s[j + 1] != 'm'
}

proof fn lemma_standard_name_chars(k: int)
    requires
        0 <= k < standard_modules().len(),
    ensures
        no_keyword_start(standard_modules()[k] + "\""@),
{
    reveal_strlit("cbor");
    reveal_strlit("csv");
    reveal_strlit("fuzzy");
    reveal_strlit("gen");
    reveal_strlit("gron");
    reveal_strlit("json");
    reveal_strlit("md");
    reveal_strlit("section");
    reveal_strlit("semver");
    reveal_strlit("test");
    reveal_strlit("table");
    reveal_strlit("toml");
    reveal_strlit("toon");
    reveal_strlit("xml");
    reveal_strlit("yaml");
    reveal_strlit("\"");
    let t = standard_modules()[k] + "\""@;
    assert forall|j: int| 0 <= j < t.len() && #[trigger] t[j] == 'i' implies j + 1 < t.len() && t[j + 1] != 'n' && t[j + 1]
        != 'm' by {
        if k == 7 {
            assert(t =~= seq!['s', 'e', 'c', 't', 'i', 'o', 'n', '"']);
        }
    }
}

/// A module given by a standard module's name reads no other module, so its
/// documentation is tied to the symbols that `mq-hir` loads for `include "m"`.
pub proof fn lemma_standard_include(k: int)
    requires
        0 <= k < standard_modules().len(),
    ensures
        !reads_other_modules(include_source(standard_modules()[k]).code),
{
    let n = standard_modules()[k];
    let code = include_source(n).code;
    reveal_strlit("include \"");
    reveal_strlit("\"");
    reveal_strlit("include");
    reveal_strlit("import");
    reveal_strlit(" \"");
    lemma_standard_name_chars(k);
    let head = "include \""@;
    let tail = n + "\""@;
    assert(code =~= head + tail);
    assert forall|i: int| !other_module_at(code, i) by {
        if 1 <= i < code.len() && code[i] == 'i' {
            if i < head.len() {
                assert(code[i] == head[i]);
            } else {
                assert(code[i] == tail[i - head.len()]);
                assert(code[i + 1] == tail[i + 1 - head.len()]);
            }
        }
        if occurs_at(code, "include"@, i) {
            assert(code[i] == "include"@[0]);
            assert(code[i + 1] == "include"@[1]);
        }
        if occurs_at(code, "import"@, i) {
            assert(code[i] == "import"@[0]);
            assert(code[i + 1] == "import"@[1]);
        }
        if i == 0 {
            assert(code.subrange(7, 7 + (" \""@ + n + "\""@).len() as int) =~= " \""@ + n + "\""@);
            assert(occurs_at(code, " \""@ + standard_modules()[k] + "\""@, 7));
            assert(names_standard_module(code, "include"@.len() as int));
        }
    }
}

proof fn lemma_file_sources_at(files: Seq<(String, String)>)
    ensures
        file_sources(files).len() == files.len(),
        forall|j: int| 0 <= j < files.len() ==> #[trigger] file_sources(files)[j] == file_source(files[j]),
    decreases files.len(),
{
    if files.len() > 0 {
        lemma_file_sources_at(files.drop_last());
        assert forall|j: int| 0 <= j < files.len() implies #[trigger] file_sources(files)[j] == file_source(files[j]) by {
            if j < files.len() - 1 {
                assert(files.drop_last()[j] == files[j]);
            }
        }
    }
}

proof fn lemma_include_sources_at(names: Seq<String>)
    ensures
        include_sources(names).len() == names.len(),
        forall|j: int| 0 <= j < names.len() ==> #[trigger] include_sources(names)[j] == include_source(names[j]@),
    decreases names.len(),
{
    if names.len() > 0 {
        lemma_include_sources_at(names.drop_last());
        assert forall|j: int| 0 <= j < names.len() implies #[trigger] include_sources(names)[j] == include_source(
            names[j]@,
        ) by {
            if j < names.len() - 1 {
                assert(names.drop_last()[j] == names[j]);
            }
        }
    }
}

/// When some file or some module name is given, the modules documented are, in
/// order: the built-in module named `Built-in` when `include_builtin` holds
/// (whether files, module names or both were given), then each given file under
/// its name, then each named module.
pub proof fn lemma_plan_order(
    module_names: Option<Vec<String>>,
    files: Option<Vec<(String, String)>>,
    include_builtin: bool,
)
    requires
        (files matches Some(f) && f@.len() > 0) || (module_names matches Some(m) && m@.len() > 0),
    ensures
        ({
            let plan = planned_sources(module_names, files, include_builtin);
            let off: int = if include_builtin { 1 } else { 0 };
            let fs = match files {
                Some(f) => f@,
                None => Seq::empty(),
            };
            let ns = match module_names {
                Some(m) => m@,
                None => Seq::empty(),
            };
            &&& plan.len() == off + fs.len() + ns.len()
            &&& include_builtin ==> plan[0] == (SourceView {
                name: "Built-in"@,
                url: None,
                code: Seq::empty(),
                builtin: true,
            })
            &&& forall|j: int| 0 <= j < fs.len() ==> plan[off + j] == file_source(#[trigger] fs[j])
            &&& forall|j: int| 0 <= j < ns.len() ==> plan[off + fs.len() + j] == include_source(
                (#[trigger] ns[j])@,
            )
        }),
{
    let fs = match files {
        Some(f) => f@,
        None => Seq::empty(),
    };
    let ns = match module_names {
        Some(m) => m@,
        None => Seq::empty(),
    };
    lemma_file_sources_at(fs);
    lemma_include_sources_at(ns);
    assert(BUILTIN_NAME@ == "Built-in"@);
    let from_files = match files {
        Some(f) => file_sources(f@),
        None => Seq::empty(),
    };
    let from_names = match module_names {
        Some(m) => include_sources(m@),
        None => Seq::empty(),
    };
    assert(from_files == file_sources(fs));
    assert(from_names == include_sources(ns));
}

proof fn lemma_file_sources_len(files: Seq<(String, String)>)
    ensures
        file_sources(files).len() == files.len(),
    decreases files.len(),
{
    if files.len() > 0 {
        lemma_file_sources_len(files.drop_last());
    }
}

proof fn lemma_include_sources_len(names: Seq<String>)
    ensures
        include_sources(names).len() == names.len(),
    decreases names.len(),
{
    if names.len() > 0 {
        lemma_include_sources_len(names.drop_last());
    }
}

proof fn lemma_push_source(v: Seq<ModuleSource>, s: ModuleSource)
    ensures
        sources_view(v.push(s)) == sources_view(v).push(s@),
{
    assert(sources_view(v.push(s)) =~= sources_view(v).push(s@));
}

/// The modules of the given files, in order.
fn file_modules(files: &Vec<(String, String)>) -> (res: Vec<ModuleSource>)
    ensures
        sources_view(res@) == file_sources(files@),
{
    let mut out: Vec<ModuleSource> = Vec::new();
    let mut i: usize = 0;
    while i < files.len()
        invariant
            i <= files@.len(),
            sources_view(out@) == file_sources(files@.take(i as int)),
        decreases files@.len() - i,
    {
        let f = &files[i];
        let mut url = String::from_str("file:///");
        url.append(f.0.as_str());
        let source = ModuleSource { name: f.0.clone(), url: Some(url), code: f.1.clone(), builtin: false };
        proof {
            assert(files@.take(i + 1).drop_last() == files@.take(i as int));
            lemma_push_source(out@, source);
        }
        out.push(source);
        i = i + 1;
    }
    proof {
        assert(files@.take(files@.len() as int) == files@);
    }
    out
}

/// The modules loaded by the given names, in order.
fn include_modules(names: &Vec<String>) -> (res: Vec<ModuleSource>)
    ensures
        sources_view(res@) == include_sources(names@),
{
    let mut out: Vec<ModuleSource> = Vec::new();
    let mut i: usize = 0;
    while i < names.len()
        invariant
            i <= names@.len(),
            sources_view(out@) == include_sources(names@.take(i as int)),
        decreases names@.len() - i,
    {
        let mut code = String::from_str("include \"");
        code.append(names[i].as_str());
        code.append("\"");
        let source = ModuleSource { name: names[i].clone(), url: None, code, builtin: false };
        proof {
            assert(names@.take(i + 1).drop_last() == names@.take(i as int));
            lemma_push_source(out@, source);
        }
        out.push(source);
        i = i + 1;
    }
    proof {
        assert(names@.take(names@.len() as int) == names@);
    }
    out
}

/// The module of built-in functions under the given name.
fn builtin_module(name: &str) -> (res: ModuleSource)
    ensures
        res@ == builtin_source(name@),
{
    ModuleSource { name: String::from_str(name), url: None, code: String::new(), builtin: true }
}

/// Appends the modules of `more` to `out`.
fn append_sources(out: &mut Vec<ModuleSource>, more: Vec<ModuleSource>)
    ensures
        sources_view(final(out)@) == sources_view(old(out)@) + sources_view(more@),
{
    let mut more = more;
    let ghost added = more@;
    out.append(&mut more);
    proof {
        assert(sources_view(old(out)@ + added) =~= sources_view(old(out)@) + sources_view(added));
    }
}

/// Decides which modules to document: when some file or some module name is
/// given, the built-in functions first if `include_builtin`, then the files, then
/// the named modules; otherwise only the built-in functions.
pub fn plan_modules(
    module_names: &Option<Vec<String>>,
    files: &Option<Vec<(String, String)>>,
    include_builtin: bool,
) -> (res: Vec<ModuleSource>)
    ensures
        sources_view(res@) == planned_sources(*module_names, *files, include_builtin),
{
    let has_files = match files {
        Some(f) => f.len() > 0,
        None => false,
    };
    let has_modules = match module_names {
        Some(m) => m.len() > 0,
        None => false,
    };
    if has_files || has_modules {
        let mut docs: Vec<ModuleSource> = Vec::new();
        if include_builtin {
            let b = builtin_module(BUILTIN_NAME);
            proof {
                lemma_push_source(docs@, b);
            }
            docs.push(b);
        }
        proof {
            assert(sources_view(docs@) =~= if include_builtin {
                seq![builtin_source(BUILTIN_NAME@)]
            } else {
                Seq::empty()
            });
        }
        match files {
            Some(f) => {
                let more = file_modules(f);
                append_sources(&mut docs, more);
            },
            None => {
                assert(sources_view(docs@) + Seq::<SourceView>::empty() =~= sources_view(docs@));
            },
        }
        match module_names {
            Some(m) => {
                let more = include_modules(m);
                append_sources(&mut docs, more);
            },
            None => {
                assert(sources_view(docs@) + Seq::<SourceView>::empty() =~= sources_view(docs@));
            },
        }
        docs
    } else {
        let mut docs: Vec<ModuleSource> = Vec::new();
        let b = builtin_module(BUILTIN_ALONE_NAME);
        proof {
            lemma_push_source(docs@, b);
            assert(sources_view(docs@.push(b)) =~= seq![builtin_source(BUILTIN_ALONE_NAME@)]);
        }
        docs.push(b);
        docs
    }
}

/// Loads one module and extracts its documented functions and selectors.
pub fn load_module(source: &ModuleSource) -> (res: ModuleDoc)
    ensures
        documents(res, source@),
{
    let url = match &source.url {
        Some(u) => Some(u.as_str()),
        None => None,
    };
    let raw = load_symbols(url, source.code.as_str(), source.builtin);
    let doc = ModuleDoc {
        name: source.name.clone(),
        symbols: extract_symbols(&raw),
        selectors: extract_selectors(&raw),
    };
    proof {
        assert(documents_symbols(doc, source@, symbols_view(raw@)));
    }
    doc
}

/// Renders the documentation of the modules in `format`.
pub fn render(format: &DocFormat, module_docs: &[ModuleDoc]) -> (res: Result<String, DocsError>)
    requires
        module_docs@.len() > 0,
    ensures
        rendering(*format, module_docs@, res),
{
    match format {
        DocFormat::Markdown => format_markdown(module_docs),
        DocFormat::Text => Ok(format_text(module_docs)),
        DocFormat::Html => Ok(format_html(module_docs)),
    }
}

/// Generates documentation for mq functions, macros and selectors.
///
/// When `module_names` or `files` holds some entry, only the given files and
/// modules are documented (both can be combined), preceded by the built-in
/// functions when `include_builtin` is set. Otherwise all built-in functions are
/// documented.
pub fn generate_docs(
    module_names: &Option<Vec<String>>,
    files: &Option<Vec<(String, String)>>,
    format: &DocFormat,
    include_builtin: bool,
) -> (res: Result<String, DocsError>)
    ensures
        *format != DocFormat::Markdown ==> res is Ok,
        exists|docs: Seq<ModuleDoc>|
            #![trigger rendering(*format, docs, res)]
            documents_all(docs, planned_sources(*module_names, *files, include_builtin))
                && rendering(*format, docs, res),
{
    let sources = plan_modules(module_names, files, include_builtin);
    let ghost plan = planned_sources(*module_names, *files, include_builtin);
    proof {
        lemma_planned_nonempty(*module_names, *files, include_builtin);
    }
    let mut docs: Vec<ModuleDoc> = Vec::new();
    let mut i: usize = 0;
    while i < sources.len()
        invariant
            i <= sources@.len(),
            sources_view(sources@) == plan,
            docs@.len() == i,
            forall|k: int| 0 <= k < i ==> documents(#[trigger] docs@[k], plan[k]),
        decreases sources@.len() - i,
    {
        let doc = load_module(&sources[i]);
        proof {
            assert(plan[i as int] == sources@[i as int]@);
        }
        docs.push(doc);
        i = i + 1;
    }
    let res = render(format, docs.as_slice());
    proof {
        assert(documents_all(docs@, plan));
    }
    res
}

} // verus!
