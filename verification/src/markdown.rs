//! The Markdown rendering: the rows are written as tab-separated values and
//! turned into Markdown tables by an mq query evaluated with `mq-lang`.
use crate::text::{join, join_strings, strings_view};
use crate::{all_selectors, all_symbols, ModuleDoc};
use vstd::prelude::*;
use vstd::string::StringExecFns;

verus! {

/// An error of parsing or evaluating an mq query.
#[verifier::external_type_specification]
#[verifier::external_body]
pub struct ExMqError(mq_lang::Error);

/// Why the documentation could not be rendered.
pub enum DocsError {
    /// The query that builds a Markdown table failed.
    Query(Box<mq_lang::Error>),
}

/// The mq query that turns tab-separated rows, the first being the header, into
/// a Markdown table.
pub const TABLE_QUERY: &'static str = "include \"csv\" | tsv_parse(false) | csv_to_markdown_table()";

/// The header of the function table.
pub const FUNCTION_HEADER: &'static str = "Function Name\tDescription\tParameters\tExample";

/// The header of the selector table.
pub const SELECTOR_HEADER: &'static str = "Selector\tDescription";

/// The heading placed before the selector table.
pub const SELECTOR_HEADING: &'static str = "\n\n## Selectors\n\n";

/// The tab-separated lines of function rows.
pub open spec fn function_lines(rows: Seq<[String; 4]>) -> Seq<Seq<char>>
    decreases rows.len(),
{
    if rows.len() == 0 {
        Seq::empty()
    } else {
        let r = rows.last();
        function_lines(rows.drop_last()).push(r[0]@ + "\t"@ + r[1]@ + "\t"@ + r[2]@ + "\t"@ + r[3]@)
    }
}

/// The tab-separated lines of selector rows.
pub open spec fn selector_lines(rows: Seq<[String; 2]>) -> Seq<Seq<char>>
    decreases rows.len(),
{
    if rows.len() == 0 {
        Seq::empty()
    } else {
        let r = rows.last();
        selector_lines(rows.drop_last()).push(r[0]@ + "\t"@ + r[1]@)
    }
}

/// The tab-separated input of the function table: the header, then one line per
/// function of all modules.
pub open spec fn function_table_input(docs: Seq<ModuleDoc>) -> Seq<char> {
    join(seq![FUNCTION_HEADER@] + function_lines(all_symbols(docs)), "\n"@)
}

/// The tab-separated input of the selector table: the header, then one line per
/// selector of all modules.
pub open spec fn selector_table_input(docs: Seq<ModuleDoc>) -> Seq<char> {
    join(seq![SELECTOR_HEADER@] + selector_lines(all_selectors(docs)), "\n"@)
}

/// The line of a function row: its four cells separated by tabs.
pub open spec fn function_row_line(r: [String; 4]) -> Seq<char> {
    r[0]@ + "\t"@ + r[1]@ + "\t"@ + r[2]@ + "\t"@ + r[3]@
}

/// The line of a selector row: its two cells separated by a tab.
pub open spec fn selector_row_line(r: [String; 2]) -> Seq<char> {
    r[0]@ + "\t"@ + r[1]@
}

proof fn lemma_function_lines_one_per_row(rows: Seq<[String; 4]>)
    ensures
        function_lines(rows).len() == rows.len(),
        forall|k: int| 0 <= k < rows.len() ==> #[trigger] function_lines(rows)[k] == function_row_line(rows[k]),
    decreases rows.len(),
{
    if rows.len() > 0 {
        lemma_function_lines_one_per_row(rows.drop_last());
        assert forall|k: int| 0 <= k < rows.len() implies #[trigger] function_lines(rows)[k] == function_row_line(
            rows[k],
        ) by {
            if k < rows.len() - 1 {
                assert(rows.drop_last()[k] == rows[k]);
            }
        }
    }
}

proof fn lemma_selector_lines_one_per_row(rows: Seq<[String; 2]>)
    ensures
        selector_lines(rows).len() == rows.len(),
        forall|k: int| 0 <= k < rows.len() ==> #[trigger] selector_lines(rows)[k] == selector_row_line(rows[k]),
    decreases rows.len(),
{
    if rows.len() > 0 {
        lemma_selector_lines_one_per_row(rows.drop_last());
        assert forall|k: int| 0 <= k < rows.len() implies #[trigger] selector_lines(rows)[k] == selector_row_line(
            rows[k],
        ) by {
            if k < rows.len() - 1 {
                assert(rows.drop_last()[k] == rows[k]);
            }
        }
    }
}

/// The input of the function table is its header line followed by one line per
/// function row of all modules, in order, each holding the row's four cells
/// separated by tabs; the lines are joined by newlines. No row is left out.
pub proof fn lemma_function_table_has_every_row(docs: Seq<ModuleDoc>)
    ensures
        exists|ls: Seq<Seq<char>>|
            #![trigger join(ls, "\n"@)]
            function_table_input(docs) == join(ls, "\n"@) && ls.len() == all_symbols(docs).len() + 1
                && ls[0] == FUNCTION_HEADER@ && forall|k: int|
                0 <= k < all_symbols(docs).len() ==> ls[k + 1] == #[trigger] function_row_line(all_symbols(docs)[k]),
{
    let rows = all_symbols(docs);
    lemma_function_lines_one_per_row(rows);
    let ls = seq![FUNCTION_HEADER@] + function_lines(rows);
    assert forall|k: int| 0 <= k < rows.len() implies ls[k + 1] == #[trigger] function_row_line(rows[k]) by {
        assert(ls[k + 1] == function_lines(rows)[k]);
    }
    assert(function_table_input(docs) == join(ls, "\n"@));
}

/// The input of the selector table is its header line followed by one line per
/// selector row of all modules, in order, each holding the row's two cells
/// separated by a tab; the lines are joined by newlines.
pub proof fn lemma_selector_table_has_every_row(docs: Seq<ModuleDoc>)
    ensures
        exists|ls: Seq<Seq<char>>|
            #![trigger join(ls, "\n"@)]
            selector_table_input(docs) == join(ls, "\n"@) && ls.len() == all_selectors(docs).len() + 1
                && ls[0] == SELECTOR_HEADER@ && forall|k: int|
                0 <= k < all_selectors(docs).len() ==> ls[k + 1] == #[trigger] selector_row_line(all_selectors(docs)[k]),
{
    let rows = all_selectors(docs);
    lemma_selector_lines_one_per_row(rows);
    let ls = seq![SELECTOR_HEADER@] + selector_lines(rows);
    assert forall|k: int| 0 <= k < rows.len() implies ls[k + 1] == #[trigger] selector_row_line(rows[k]) by {
        assert(ls[k + 1] == selector_lines(rows)[k]);
    }
    assert(selector_table_input(docs) == join(ls, "\n"@));
}

/// The Markdown documentation made of the values the table query produced: the
/// function table, then, when there is a selector table, its heading and the table.
pub open spec fn markdown_spec(function_table: Seq<Seq<char>>, selector_table: Option<Seq<Seq<char>>>) -> Seq<char> {
    match selector_table {
        Some(t) => join(function_table, "\n"@) + SELECTOR_HEADING@ + join(t, "\n"@),
        None => join(function_table, "\n"@),
    }
}

/// The values, each rendered as a string, that evaluating the mq query `query`
/// on the single string input `input` produces with a fresh engine that has the
/// built-in module loaded; `None` when the evaluation fails.
pub uninterp spec fn query_values(query: Seq<char>, input: Seq<char>) -> Option<Seq<Seq<char>>>;

/// Evaluates `query` with a fresh `mq_lang::DefaultEngine` that has the built-in
/// module loaded (`Engine::default`, `Engine::load_builtin_module`), on the single
/// string input `input` (`mq_lang::raw_input`, `Engine::eval`), each resulting
/// value rendered as a string (`Display`). The engine type cannot be declared
/// here, so its construction and use stand in this one item. Only the table
/// query is admitted: it includes the `csv` module, which the engine's resolver
/// takes from the standard modules compiled into `mq-lang` before it looks at the
/// file system, and its functions read nothing else, so what comes back depends
/// on the query and the input alone.
#[verifier::external_body]
fn eval_with_builtins(query: &str, input: &str) -> (res: Result<Vec<String>, Box<mq_lang::Error>>)
    requires
        query@ == TABLE_QUERY@,
    ensures
        match res {
            Ok(values) => query_values(query@, input@) == Some(strings_view(values@)),
            Err(_) => query_values(query@, input@) is None,
        },
{
    let mut engine = mq_lang::DefaultEngine::default();
    engine.load_builtin_module();
    engine
        .eval(query, mq_lang::raw_input(input).into_iter())
        .map(|values| values.values().iter().map(|v| v.to_string()).collect())
}

/// What the table query makes of the tab-separated `input`.
pub open spec fn table_values(input: Seq<char>) -> Option<Seq<Seq<char>>> {
    query_values(TABLE_QUERY@, input)
}

/// The Markdown documentation of `docs`: the function table and, when some module
/// has selectors, the selector table, as the table query renders them; `None`
/// when the query fails on either.
pub open spec fn markdown_output(docs: Seq<ModuleDoc>) -> Option<Seq<char>> {
    match table_values(function_table_input(docs)) {
        None => None,
        Some(ft) => if all_selectors(docs).len() > 0 {
            match table_values(selector_table_input(docs)) {
                None => None,
                Some(st) => Some(markdown_spec(ft, Some(st))),
            }
        } else {
            Some(markdown_spec(ft, None))
        },
    }
}

/// Evaluates the table query on `input` with a fresh engine that has the
/// built-in module loaded.
fn table_query(input: &str) -> (res: Result<Vec<String>, DocsError>)
    ensures
        match res {
            Ok(values) => table_values(input@) == Some(strings_view(values@)),
            Err(_) => table_values(input@) is None,
        },
{
    match eval_with_builtins(TABLE_QUERY, input) {
        Ok(values) => Ok(values),
        Err(e) => Err(DocsError::Query(e)),
    }
}

/// The tab-separated input of the function table.
pub fn function_table_text(module_docs: &[ModuleDoc]) -> (res: String)
    ensures
        res@ == function_table_input(module_docs@),
{
    let mut lines: Vec<String> = Vec::new();
    lines.push(String::from_str(FUNCTION_HEADER));
    let mut i: usize = 0;
    while i < module_docs.len()
        invariant
            i <= module_docs.len(),
            strings_view(lines@) == seq![FUNCTION_HEADER@] + function_lines(all_symbols(module_docs@.take(i as int))),
        decreases module_docs.len() - i,
    {
        let m = &module_docs[i];
        let ghost before = all_symbols(module_docs@.take(i as int));
        let mut j: usize = 0;
        while j < m.symbols.len()
            invariant
                j <= m.symbols@.len(),
                strings_view(lines@) == seq![FUNCTION_HEADER@] + function_lines(before + m.symbols@.take(j as int)),
            decreases m.symbols@.len() - j,
        {
            let r = &m.symbols[j];
            let mut line = r[0].clone();
            line.append("\t");
            line.append(r[1].as_str());
            line.append("\t");
            line.append(r[2].as_str());
            line.append("\t");
            line.append(r[3].as_str());
            proof {
                assert((before + m.symbols@.take(j + 1)).drop_last() == before + m.symbols@.take(j as int));
                assert(strings_view(lines@.push(line)) == strings_view(lines@).push(line@));
            }
            lines.push(line);
            j = j + 1;
        }
        proof {
            assert(module_docs@.take(i + 1).drop_last() == module_docs@.take(i as int));
            assert(m.symbols@.take(m.symbols@.len() as int) == m.symbols@);
        }
        i = i + 1;
    }
    proof {
        assert(module_docs@.take(module_docs@.len() as int) == module_docs@);
    }
    join_strings(&lines, "\n")
}

/// The tab-separated input of the selector table.
pub fn selector_table_text(module_docs: &[ModuleDoc]) -> (res: String)
    ensures
        res@ == selector_table_input(module_docs@),
{
    let mut lines: Vec<String> = Vec::new();
    lines.push(String::from_str(SELECTOR_HEADER));
    let mut i: usize = 0;
    while i < module_docs.len()
        invariant
            i <= module_docs.len(),
            strings_view(lines@) == seq![SELECTOR_HEADER@] + selector_lines(all_selectors(module_docs@.take(i as int))),
        decreases module_docs.len() - i,
    {
        let m = &module_docs[i];
        let ghost before = all_selectors(module_docs@.take(i as int));
        let mut j: usize = 0;
        while j < m.selectors.len()
            invariant
                j <= m.selectors@.len(),
                strings_view(lines@) == seq![SELECTOR_HEADER@] + selector_lines(before + m.selectors@.take(j as int)),
            decreases m.selectors@.len() - j,
        {
            let r = &m.selectors[j];
            let mut line = r[0].clone();
            line.append("\t");
            line.append(r[1].as_str());
            proof {
                assert((before + m.selectors@.take(j + 1)).drop_last() == before + m.selectors@.take(j as int));
                assert(strings_view(lines@.push(line)) == strings_view(lines@).push(line@));
            }
            lines.push(line);
            j = j + 1;
        }
        proof {
            assert(module_docs@.take(i + 1).drop_last() == module_docs@.take(i as int));
            assert(m.selectors@.take(m.selectors@.len() as int) == m.selectors@);
        }
        i = i + 1;
    }
    proof {
        assert(module_docs@.take(module_docs@.len() as int) == module_docs@);
    }
    join_strings(&lines, "\n")
}

/// The Markdown documentation made of the values the table query produced for the
/// function table and, when there are selectors, for the selector table.
pub fn assemble_markdown(function_table: &Vec<String>, selector_table: &Option<Vec<String>>) -> (res: String)
    ensures
        res@ == markdown_spec(
            strings_view(function_table@),
            match selector_table {
                Some(t) => Some(strings_view(t@)),
                None => None,
            },
        ),
{
    let mut out = join_strings(function_table, "\n");
    match selector_table {
        Some(t) => {
            out.append(SELECTOR_HEADING);
            let tables = join_strings(t, "\n");
            out.append(tables.as_str());
        },
        None => {},
    }
    out
}

/// Whether some module has selectors.
fn has_selectors(module_docs: &[ModuleDoc]) -> (res: bool)
    ensures
        res == (all_selectors(module_docs@).len() > 0),
{
    let mut i: usize = 0;
    while i < module_docs.len()
        invariant
            i <= module_docs.len(),
            all_selectors(module_docs@.take(i as int)).len() == 0,
        decreases module_docs.len() - i,
    {
        proof {
            assert(module_docs@.take(i + 1).drop_last() == module_docs@.take(i as int));
        }
        if module_docs[i].selectors.len() > 0 {
            proof {
                lemma_all_selectors_len(module_docs@, (i + 1) as int);
            }
            return true;
        }
        i = i + 1;
    }
    proof {
        assert(module_docs@.take(module_docs@.len() as int) == module_docs@);
    }
    false
}

proof fn lemma_all_selectors_len(docs: Seq<ModuleDoc>, n: int)
    requires
        0 <= n <= docs.len(),
    ensures
        all_selectors(docs).len() >= all_selectors(docs.take(n)).len(),
    decreases docs.len(),
{
    if n < docs.len() {
        assert(docs.drop_last().take(n) == docs.take(n));
        lemma_all_selectors_len(docs.drop_last(), n);
    } else {
        assert(docs.take(n) == docs);
    }
}

/// Formats the documentation as Markdown tables: the function table, then, when
/// there are selectors, a `## Selectors` heading and the selector table.
pub fn format_markdown(module_docs: &[ModuleDoc]) -> (res: Result<String, DocsError>)
    ensures
        match res {
            Ok(out) => markdown_output(module_docs@) == Some(out@),
            Err(_) => markdown_output(module_docs@) is None,
        },
{
    let function_input = function_table_text(module_docs);
    let function_table = match table_query(function_input.as_str()) {
        Ok(values) => values,
        Err(e) => return Err(e),
    };
    let selector_table = if has_selectors(module_docs) {
        let selector_input = selector_table_text(module_docs);
        match table_query(selector_input.as_str()) {
            Ok(values) => Some(values),
            Err(e) => return Err(e),
        }
    } else {
        None
    };
    Ok(assemble_markdown(&function_table, &selector_table))
}

} // verus!
