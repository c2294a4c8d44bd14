//! The plain-text rendering: one `def` entry per function and one `selector`
//! entry per selector, each preceded by its description as a `#` comment.
use crate::text::{join, join_strings, remove_all, remove_char, strings_view};
use crate::{all_selectors, all_symbols, ModuleDoc};
use vstd::prelude::*;
use vstd::string::StringExecFns;

verus! {

/// The text entry of a function row: its description as a comment, then its
/// signature with the backticks of the name and the parameters removed.
pub open spec fn function_entry(r: [String; 4]) -> Seq<char> {
    "# "@ + r[1]@ + "\ndef "@ + remove_all(r[0]@, '`') + "("@ + remove_all(r[2]@, '`') + ")"@
}

/// The text entry of a selector row.
pub open spec fn selector_entry(r: [String; 2]) -> Seq<char> {
    "# "@ + r[1]@ + "\nselector "@ + remove_all(r[0]@, '`')
}

/// The text entries of a sequence of function rows.
pub open spec fn function_entries(rows: Seq<[String; 4]>) -> Seq<Seq<char>>
    decreases rows.len(),
{
    if rows.len() == 0 {
        Seq::empty()
    } else {
        function_entries(rows.drop_last()).push(function_entry(rows.last()))
    }
}

/// The text entries of a sequence of selector rows.
pub open spec fn selector_entries(rows: Seq<[String; 2]>) -> Seq<Seq<char>>
    decreases rows.len(),
{
    if rows.len() == 0 {
        Seq::empty()
    } else {
        selector_entries(rows.drop_last()).push(selector_entry(rows.last()))
    }
}

/// The plain-text documentation: the function entries separated by blank lines,
/// followed, when there are selectors, by a blank line and the selector entries.
pub open spec fn format_text_spec(docs: Seq<ModuleDoc>) -> Seq<char> {
    let functions = join(function_entries(all_symbols(docs)), "\n\n"@);
    let selectors = join(selector_entries(all_selectors(docs)), "\n\n"@);
    if selectors.len() == 0 {
        functions
    } else {
        functions + "\n\n"@ + selectors
    }
}

/// The function rows `a` and `b` agree on names, descriptions and parameters,
/// position by position.
pub open spec fn same_shown_functions(a: Seq<[String; 4]>, b: Seq<[String; 4]>) -> bool {
    &&& a.len() == b.len()
    &&& forall|i: int| 0 <= i < a.len() ==> (#[trigger] a[i])[0]@ == b[i][0]@ && a[i][1]@ == b[i][1]@ && a[i][2]@ == b[i][2]@
}

/// The selector rows `a` and `b` agree position by position.
pub open spec fn same_shown_selectors(a: Seq<[String; 2]>, b: Seq<[String; 2]>) -> bool {
    &&& a.len() == b.len()
    &&& forall|i: int| 0 <= i < a.len() ==> (#[trigger] a[i])[0]@ == b[i][0]@ && a[i][1]@ == b[i][1]@
}

proof fn lemma_function_entries_same(a: Seq<[String; 4]>, b: Seq<[String; 4]>)
    requires
        same_shown_functions(a, b),
    ensures
        function_entries(a) == function_entries(b),
    decreases a.len(),
{
    if a.len() > 0 {
        lemma_function_entries_same(a.drop_last(), b.drop_last());
        assert(a.last() == a[a.len() - 1]);
        assert(b.last() == b[a.len() - 1]);
    }
}

proof fn lemma_selector_entries_same(a: Seq<[String; 2]>, b: Seq<[String; 2]>)
    requires
        same_shown_selectors(a, b),
    ensures
        selector_entries(a) == selector_entries(b),
    decreases a.len(),
{
    if a.len() > 0 {
        lemma_selector_entries_same(a.drop_last(), b.drop_last());
        assert(a.last() == a[a.len() - 1]);
        assert(b.last() == b[a.len() - 1]);
    }
}

/// The text shows neither module names, nor where one module ends and the next
/// begins, nor the examples: two lists of modules whose function rows, taken
/// one module after the other, agree on names, descriptions and parameters, and
/// whose selector rows agree, give the same text.
pub proof fn lemma_text_shows_rows_only(a: Seq<ModuleDoc>, b: Seq<ModuleDoc>)
    requires
        same_shown_functions(all_symbols(a), all_symbols(b)),
        same_shown_selectors(all_selectors(a), all_selectors(b)),
    ensures
        format_text_spec(a) == format_text_spec(b),
{
    lemma_function_entries_same(all_symbols(a), all_symbols(b));
    lemma_selector_entries_same(all_selectors(a), all_selectors(b));
}

fn function_entry_text(r: &[String; 4]) -> (res: String)
    ensures
        res@ == function_entry(*r),
{
    let mut out = String::new();
    out.append("# ");
    out.append(r[1].as_str());
    out.append("\ndef ");
    let name = remove_char(r[0].as_str(), '`');
    out.append(name.as_str());
    out.append("(");
    let args = remove_char(r[2].as_str(), '`');
    out.append(args.as_str());
    out.append(")");
    out
}

fn selector_entry_text(r: &[String; 2]) -> (res: String)
    ensures
        res@ == selector_entry(*r),
{
    let mut out = String::new();
    out.append("# ");
    out.append(r[1].as_str());
    out.append("\nselector ");
    let name = remove_char(r[0].as_str(), '`');
    out.append(name.as_str());
    out
}

proof fn lemma_push_view(v: Seq<String>, s: String)
    ensures
        strings_view(v.push(s)) == strings_view(v).push(s@),
{
    assert(strings_view(v.push(s)) =~= strings_view(v).push(s@));
}

/// The text entries of all function rows.
fn all_function_entries(module_docs: &[ModuleDoc]) -> (res: Vec<String>)
    ensures
        strings_view(res@) == function_entries(all_symbols(module_docs@)),
{
    let mut out: Vec<String> = Vec::new();
    let mut i: usize = 0;
    while i < module_docs.len()
        invariant
            i <= module_docs.len(),
            strings_view(out@) == function_entries(all_symbols(module_docs@.take(i as int))),
        decreases module_docs.len() - i,
    {
        let m = &module_docs[i];
        let ghost before = all_symbols(module_docs@.take(i as int));
        let mut j: usize = 0;
        while j < m.symbols.len()
            invariant
                j <= m.symbols@.len(),
                strings_view(out@) == function_entries(before + m.symbols@.take(j as int)),
            decreases m.symbols@.len() - j,
        {
            let e = function_entry_text(&m.symbols[j]);
            proof {
                lemma_push_view(out@, e);
                assert((before + m.symbols@.take(j + 1)).drop_last() == before + m.symbols@.take(j as int));
            }
            out.push(e);
            j = j + 1;
        }
        proof {
            assert(module_docs@.take(i + 1).drop_last() == module_docs@.take(i as int));
            assert(m.symbols@.take(m.symbols@.len() as int) == m.symbols@);
        }
        i = i + 1;
    }
    proof {
        assert(module_docs@.take(module_docs@.len() as int) == module_docs@);
    }
    out
}

/// The text entries of all selector rows.
fn all_selector_entries(module_docs: &[ModuleDoc]) -> (res: Vec<String>)
    ensures
        strings_view(res@) == selector_entries(all_selectors(module_docs@)),
{
    let mut out: Vec<String> = Vec::new();
    let mut i: usize = 0;
    while i < module_docs.len()
        invariant
            i <= module_docs.len(),
            strings_view(out@) == selector_entries(all_selectors(module_docs@.take(i as int))),
        decreases module_docs.len() - i,
    {
        let m = &module_docs[i];
        let ghost before = all_selectors(module_docs@.take(i as int));
        let mut j: usize = 0;
        while j < m.selectors.len()
            invariant
                j <= m.selectors@.len(),
                strings_view(out@) == selector_entries(before + m.selectors@.take(j as int)),
            decreases m.selectors@.len() - j,
        {
            let e = selector_entry_text(&m.selectors[j]);
            proof {
                lemma_push_view(out@, e);
                assert((before + m.selectors@.take(j + 1)).drop_last() == before + m.selectors@.take(j as int));
            }
            out.push(e);
            j = j + 1;
        }
        proof {
            assert(module_docs@.take(i + 1).drop_last() == module_docs@.take(i as int));
            assert(m.selectors@.take(m.selectors@.len() as int) == m.selectors@);
        }
        i = i + 1;
    }
    proof {
        assert(module_docs@.take(module_docs@.len() as int) == module_docs@);
    }
    out
}

/// Formats the documentation as plain text.
pub fn format_text(module_docs: &[ModuleDoc]) -> (res: String)
    ensures
        res@ == format_text_spec(module_docs@),
{
    let functions = join_strings(&all_function_entries(module_docs), "\n\n");
    let selectors = join_strings(&all_selector_entries(module_docs), "\n\n");
    if selectors.as_str().is_empty() {
        functions
    } else {
        let mut out = functions;
        out.append("\n\n");
        out.append(selectors.as_str());
        out
    }
}

} // verus!
