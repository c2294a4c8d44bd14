//! The single-page HTML rendering: a sidebar listing the modules (and, when there
//! are any, the modules with selectors), and one filterable table page per module.
use crate::template;
use crate::text::{
    chars_of, contains_seq, decimal, decimal_string, has_prefix, join, join_strings, lemma_contains_in_concat,
    lemma_contains_self, lemma_join_concat, push_char, split,
    split_chars, string_of_range, strings_view, trim_end_all, trim_end_index, trim_start_all,
    trim_start_index, starts_with,
};
use crate::{all_symbols, ModuleDoc};
use std::collections::VecDeque;
use vstd::prelude::*;
use vstd::string::StringExecFns;

verus! {

/// The escaped form of one character: `&`, `<`, `>` and `"` become entities.
pub open spec fn escape_char_spec(c: char) -> Seq<char> {
    if c == '&' {
        "&amp;"@
    } else if c == '<' {
        "&lt;"@
    } else if c == '>' {
        "&gt;"@
    } else if c == '"' {
        "&quot;"@
    } else {
        seq![c]
    }
}

/// `s` with each character replaced by its escaped form.
pub open spec fn escape_html_spec(s: Seq<char>) -> Seq<char>
    decreases s.len(),
{
    if s.len() == 0 {
        Seq::empty()
    } else {
        escape_html_spec(s.drop_last()) + escape_char_spec(s.last())
    }
}

/// Escapes the HTML special characters `&`, `<`, `>` and `"` of `s`.
pub fn escape_html(s: &str) -> (res: String)
    ensures
        res@ == escape_html_spec(s@),
{
    let mut out = String::new();
    for c in it: s.chars()
        invariant
            it.seq() == s@,
            out@ == escape_html_spec(s@.take(it.index() as int)),
    {
        proof {
            assert(s@.take(it.index() + 1).drop_last() == s@.take(it.index() as int));
        }
        if c == '&' {
            out.append("&amp;");
        } else if c == '<' {
            out.append("&lt;");
        } else if c == '>' {
            out.append("&gt;");
        } else if c == '"' {
            out.append("&quot;");
        } else {
            push_char(&mut out, c);
        }
    }
    proof {
        assert(s@.take(s@.len() as int) == s@);
    }
    out
}

/// The text that `t` stands for, reading the entities `&amp;`, `&lt;`, `&gt;` and
/// `&quot;` as the characters they denote.
pub open spec fn unescape_html_spec(t: Seq<char>) -> Seq<char>
    decreases t.len(),
{
    if t.len() == 0 {
        Seq::empty()
    } else if has_prefix(t, seq!['&', 'a', 'm', 'p', ';']) {
        seq!['&'] + unescape_html_spec(t.skip(5))
    } else if has_prefix(t, seq!['&', 'l', 't', ';']) {
        seq!['<'] + unescape_html_spec(t.skip(4))
    } else if has_prefix(t, seq!['&', 'g', 't', ';']) {
        seq!['>'] + unescape_html_spec(t.skip(4))
    } else if has_prefix(t, seq!['&', 'q', 'u', 'o', 't', ';']) {
        seq!['"'] + unescape_html_spec(t.skip(6))
    } else {
        seq![t[0]] + unescape_html_spec(t.skip(1))
    }
}

proof fn lemma_entity_texts()
    ensures
        "&amp;"@ == seq!['&', 'a', 'm', 'p', ';'],
        "&lt;"@ == seq!['&', 'l', 't', ';'],
        "&gt;"@ == seq!['&', 'g', 't', ';'],
        "&quot;"@ == seq!['&', 'q', 'u', 'o', 't', ';'],
{
    reveal_strlit("&amp;");
    reveal_strlit("&lt;");
    reveal_strlit("&gt;");
    reveal_strlit("&quot;");
    assert("&amp;"@ =~= seq!['&', 'a', 'm', 'p', ';']);
    assert("&lt;"@ =~= seq!['&', 'l', 't', ';']);
    assert("&gt;"@ =~= seq!['&', 'g', 't', ';']);
    assert("&quot;"@ =~= seq!['&', 'q', 'u', 'o', 't', ';']);
}

/// Escaping a concatenation escapes each part.
pub proof fn lemma_escape_html_append(a: Seq<char>, b: Seq<char>)
    ensures
        escape_html_spec(a + b) == escape_html_spec(a) + escape_html_spec(b),
    decreases b.len(),
{
    if b.len() == 0 {
        assert(a + b =~= a);
        assert(escape_html_spec(a) + escape_html_spec(b) =~= escape_html_spec(a));
    } else {
        assert((a + b).drop_last() =~= a + b.drop_last());
        lemma_escape_html_append(a, b.drop_last());
        assert(escape_html_spec(a + b) =~= escape_html_spec(a) + escape_html_spec(b));
    }
}

/// Escaped text holds no `<`, `>` or `"`: whatever the input, it cannot open or
/// close a tag or end an attribute value.
pub proof fn lemma_escape_html_safe(s: Seq<char>)
    ensures
        forall|i: int|
            0 <= i < escape_html_spec(s).len() ==> {
                let c = #[trigger] escape_html_spec(s)[i];
                c != '<' && c != '>' && c != '"'
            },
    decreases s.len(),
{
    lemma_entity_texts();
    if s.len() > 0 {
        lemma_escape_html_safe(s.drop_last());
        let e = escape_char_spec(s.last());
        assert forall|i: int| 0 <= i < e.len() implies e[i] != '<' && e[i] != '>' && e[i] != '"' by {}
        let t = escape_html_spec(s);
        let p = escape_html_spec(s.drop_last());
        assert forall|i: int| 0 <= i < t.len() implies t[i] != '<' && t[i] != '>' && t[i] != '"' by {
            if i < p.len() {
                assert(t[i] == p[i]);
            } else {
                assert(t[i] == e[i - p.len()]);
            }
        }
    }
}

/// Escaping loses nothing: reading the entities of the escaped form of `s` back
/// gives `s`.
pub proof fn lemma_escape_html_roundtrip(s: Seq<char>)
    ensures
        unescape_html_spec(escape_html_spec(s)) == s,
    decreases s.len(),
{
    lemma_entity_texts();
    if s.len() > 0 {
        let c = s[0];
        let rest = s.drop_first();
        assert(s =~= seq![c] + rest);
        lemma_escape_html_append(seq![c], rest);
        assert(seq![c].drop_last() =~= Seq::<char>::empty());
        assert(escape_html_spec(seq![c].drop_last()) == Seq::<char>::empty());
        assert(seq![c].last() == c);
        assert(Seq::<char>::empty() + escape_char_spec(c) =~= escape_char_spec(c));
        assert(escape_html_spec(seq![c]) == escape_char_spec(c));
        let e = escape_char_spec(c);
        let t = e + escape_html_spec(rest);
        assert(escape_html_spec(s) == t);
        assert(t.skip(e.len() as int) =~= escape_html_spec(rest));
        lemma_escape_html_roundtrip(rest);
        if c == '&' {
            assert(t.subrange(0, 5) =~= "&amp;"@);
        } else if c == '<' {
            assert(t.subrange(0, 4) =~= "&lt;"@);
            assert(t[1] != "&amp;"@[1]);
        } else if c == '>' {
            assert(t.subrange(0, 4) =~= "&gt;"@);
            assert(t[1] != "&amp;"@[1]);
            assert(t[1] != "&lt;"@[1]);
        } else if c == '"' {
            assert(t.subrange(0, 6) =~= "&quot;"@);
            assert(t[1] != "&amp;"@[1]);
            assert(t[1] != "&lt;"@[1]);
            assert(t[1] != "&gt;"@[1]);
        } else {
            assert(t[0] == c);
            assert(t[0] != "&amp;"@[0]);
        }
    } else {
        assert(escape_html_spec(s) =~= Seq::<char>::empty());
    }
}

/// An inline icon around the given shapes.
pub open spec fn svg_icon_spec(inner: Seq<char>) -> Seq<char> {
    template::SVG_OPEN@ + inner + template::SVG_CLOSE@
}

/// The icon of a module: a cube for the built-in modules (names beginning with
/// `Built-in`), a package for any other.
pub open spec fn module_icon_spec(name: Seq<char>) -> Seq<char> {
    if has_prefix(name, "Built-in"@) {
        svg_icon_spec(template::CUBE_SHAPES@)
    } else {
        svg_icon_spec(template::PACKAGE_SHAPES@)
    }
}

/// The icon of selector entries.
pub open spec fn selector_icon_spec() -> Seq<char> {
    svg_icon_spec(template::TARGET_SHAPES@)
}

/// `s` without its leading and trailing backticks.
pub open spec fn strip_backticks(s: Seq<char>) -> Seq<char> {
    trim_end_all(trim_start_all(s, "`"@), "`"@)
}

/// A code element holding the escaped text of `s` without its backticks.
pub open spec fn code_html(s: Seq<char>) -> Seq<char> {
    "<code>"@ + escape_html_spec(strip_backticks(s)) + "</code>"@
}

/// The name cell of a function row: struck through when the rendered name is
/// marked deprecated (`~~`), plain code otherwise.
pub open spec fn name_html(name: Seq<char>) -> Seq<char> {
    if has_prefix(name, "~~"@) {
        "<del><code>"@ + escape_html_spec(trim_end_all(trim_start_all(name, "~~`"@), "`~~"@))
            + "</code></del>"@
    } else {
        code_html(name)
    }
}

/// The code elements of the non-empty pieces.
pub open spec fn arg_codes(parts: Seq<Seq<char>>) -> Seq<Seq<char>>
    decreases parts.len(),
{
    if parts.len() == 0 {
        Seq::empty()
    } else if parts.last().len() == 0 {
        arg_codes(parts.drop_last())
    } else {
        arg_codes(parts.drop_last()).push(code_html(parts.last()))
    }
}

/// The parameter cell of a function row: one code element per parameter of the
/// comma-separated list.
pub open spec fn args_html(args: Seq<char>) -> Seq<char> {
    join(arg_codes(split(args, ", "@)), ", "@)
}

/// The table row of a function.
pub open spec fn symbol_row_html(r: [String; 4]) -> Seq<char> {
    template::ROW_START@ + name_html(r[0]@) + template::CELL_BREAK@ + escape_html_spec(r[1]@)
        + template::CELL_BREAK@ + args_html(r[2]@) + template::CODE_CELL_BREAK@
        + escape_html_spec(r[3]@) + template::CODE_ROW_END@
}

/// The table row of a selector.
pub open spec fn selector_row_html(r: [String; 2]) -> Seq<char> {
    template::ROW_START@ + code_html(r[0]@) + template::CELL_BREAK@ + escape_html_spec(r[1]@)
        + template::ROW_END@
}

/// The table rows of a sequence of functions.
pub open spec fn symbol_rows_html(rows: Seq<[String; 4]>) -> Seq<Seq<char>>
    decreases rows.len(),
{
    if rows.len() == 0 {
        Seq::empty()
    } else {
        symbol_rows_html(rows.drop_last()).push(symbol_row_html(rows.last()))
    }
}

/// The table rows of a sequence of selectors.
pub open spec fn selector_rows_html(rows: Seq<[String; 2]>) -> Seq<Seq<char>>
    decreases rows.len(),
{
    if rows.len() == 0 {
        Seq::empty()
    } else {
        selector_rows_html(rows.drop_last()).push(selector_row_html(rows.last()))
    }
}

/// The class added to the active page or sidebar link.
pub open spec fn active_class(active: bool) -> Seq<char> {
    if active {
        " active"@
    } else {
        Seq::empty()
    }
}

/// The page block of a function table.
pub open spec fn module_page_spec(id: Seq<char>, rows: Seq<[String; 4]>, active: bool) -> Seq<char> {
    template::PAGE_OPEN@ + active_class(active) + template::PAGE_ID@ + id
        + template::FUNCTION_PAGE_SEARCH@ + decimal(rows.len()) + template::FUNCTION_PAGE_TABLE@
        + join(symbol_rows_html(rows), "\n"@) + template::PAGE_CLOSE@
}

/// The page block of a selector table.
pub open spec fn selector_page_spec(id: Seq<char>, rows: Seq<[String; 2]>, active: bool) -> Seq<char> {
    template::PAGE_OPEN@ + active_class(active) + template::PAGE_ID@ + id
        + template::SELECTOR_PAGE_SEARCH@ + decimal(rows.len()) + template::SELECTOR_PAGE_TABLE@
        + join(selector_rows_html(rows), "\n"@) + template::PAGE_CLOSE@
}

/// The active flag of a page changes only its class: the active page is the
/// inactive one with ` active` inserted right after its opening `<div
/// class="module-page`.
pub proof fn lemma_active_changes_only_class(id: Seq<char>, rows: Seq<[String; 4]>, sels: Seq<[String; 2]>)
    ensures
        module_page_spec(id, rows, false).take(template::PAGE_OPEN@.len() as int) == template::PAGE_OPEN@,
        module_page_spec(id, rows, true) == template::PAGE_OPEN@ + " active"@ + module_page_spec(id, rows, false).skip(
            template::PAGE_OPEN@.len() as int,
        ),
        selector_page_spec(id, sels, false).take(template::PAGE_OPEN@.len() as int) == template::PAGE_OPEN@,
        selector_page_spec(id, sels, true) == template::PAGE_OPEN@ + " active"@ + selector_page_spec(id, sels, false).skip(
            template::PAGE_OPEN@.len() as int,
        ),
{
    let open = template::PAGE_OPEN@;
    let n = open.len() as int;
    let rest = template::PAGE_ID@ + id + template::FUNCTION_PAGE_SEARCH@ + decimal(rows.len())
        + template::FUNCTION_PAGE_TABLE@ + join(symbol_rows_html(rows), "\n"@) + template::PAGE_CLOSE@;
    assert(module_page_spec(id, rows, false) =~= open + rest);
    assert(module_page_spec(id, rows, true) =~= open + " active"@ + rest);
    assert((open + rest).take(n) =~= open);
    assert((open + rest).skip(n) =~= rest);
    let srest = template::PAGE_ID@ + id + template::SELECTOR_PAGE_SEARCH@ + decimal(sels.len())
        + template::SELECTOR_PAGE_TABLE@ + join(selector_rows_html(sels), "\n"@) + template::PAGE_CLOSE@;
    assert(selector_page_spec(id, sels, false) =~= open + srest);
    assert(selector_page_spec(id, sels, true) =~= open + " active"@ + srest);
    assert((open + srest).take(n) =~= open);
    assert((open + srest).skip(n) =~= srest);
}

proof fn lemma_symbol_rows_concat(xs: Seq<[String; 4]>, ys: Seq<[String; 4]>)
    ensures
        symbol_rows_html(xs + ys) == symbol_rows_html(xs) + symbol_rows_html(ys),
        symbol_rows_html(ys).len() == ys.len(),
    decreases ys.len(),
{
    if ys.len() == 0 {
        assert(xs + ys =~= xs);
        assert(symbol_rows_html(xs) + symbol_rows_html(ys) =~= symbol_rows_html(xs));
    } else {
        lemma_symbol_rows_concat(xs, ys.drop_last());
        assert((xs + ys).drop_last() =~= xs + ys.drop_last());
        assert((xs + ys).last() == ys.last());
        assert(symbol_rows_html(xs + ys) =~= symbol_rows_html(xs) + symbol_rows_html(ys));
    }
}

/// The table rows of two non-empty lists of functions, one after the other, are
/// the rows of the first list, a newline and the rows of the second: each row
/// depends on its function alone and the rows keep the order of the functions.
pub proof fn lemma_table_rows_concat(xs: Seq<[String; 4]>, ys: Seq<[String; 4]>)
    requires
        xs.len() > 0,
        ys.len() > 0,
    ensures
        join(symbol_rows_html(xs + ys), "\n"@) == join(symbol_rows_html(xs), "\n"@) + "\n"@ + join(
            symbol_rows_html(ys),
            "\n"@,
        ),
{
    lemma_symbol_rows_concat(xs, ys);
    lemma_symbol_rows_concat(Seq::empty(), xs);
    lemma_join_concat(symbol_rows_html(xs), symbol_rows_html(ys), "\n"@);
}

/// A sidebar link from its target on: the target page `id`, then the icon, the
/// label and the count.
pub open spec fn link_text(id: Seq<char>, icon: Seq<char>, label: Seq<char>, count: nat) -> Seq<char> {
    template::LINK_TARGET@ + id + template::LINK_ICON@ + icon + template::LINK_LABEL@ + label
        + template::LINK_COUNT@ + decimal(count) + template::LINK_CLOSE@
}

/// A page from its id on: the id `id`, then the search box, the count, the
/// table head, the rows and the end of the page.
pub open spec fn page_text(id: Seq<char>, search: Seq<char>, count: nat, head: Seq<char>, rows: Seq<char>) -> Seq<char> {
    template::PAGE_ID@ + id + search + decimal(count) + head + rows + template::PAGE_CLOSE@
}

/// The sidebar link that the `i`-th module `m` should have: to `mod-i`, with the
/// module's icon, its escaped name and its number of functions.
pub open spec fn module_link_text(i: int, m: ModuleDoc) -> Seq<char> {
    link_text("mod-"@ + decimal(i as nat), module_icon_spec(m.name@), escape_html_spec(m.name@), m.symbols@.len())
}

/// The function page that the `i`-th module `m` should have: id `mod-i`, with the
/// module's number of functions and its function rows.
pub open spec fn module_page_text(i: int, m: ModuleDoc) -> Seq<char> {
    page_text(
        "mod-"@ + decimal(i as nat),
        template::FUNCTION_PAGE_SEARCH@,
        m.symbols@.len(),
        template::FUNCTION_PAGE_TABLE@,
        join(symbol_rows_html(m.symbols@), "\n"@),
    )
}

/// The selector link that the `i`-th module `m` should have: to `sel-i`, with the
/// selector icon, the module's escaped name and its number of selectors.
pub open spec fn selector_link_text(i: int, m: ModuleDoc) -> Seq<char> {
    link_text("sel-"@ + decimal(i as nat), selector_icon_spec(), escape_html_spec(m.name@), m.selectors@.len())
}

/// The selector page that the `i`-th module `m` should have: id `sel-i`, with the
/// module's number of selectors and its selector rows.
pub open spec fn selector_page_text(i: int, m: ModuleDoc) -> Seq<char> {
    page_text(
        "sel-"@ + decimal(i as nat),
        template::SELECTOR_PAGE_SEARCH@,
        m.selectors@.len(),
        template::SELECTOR_PAGE_TABLE@,
        join(selector_rows_html(m.selectors@), "\n"@),
    )
}

proof fn lemma_regroup_link(
    a: Seq<char>,
    b: Seq<char>,
    c: Seq<char>,
    d: Seq<char>,
    e: Seq<char>,
    f: Seq<char>,
    g: Seq<char>,
    h: Seq<char>,
    k: Seq<char>,
    l: Seq<char>,
    m: Seq<char>,
)
    ensures
        a + b + c + d + e + f + g + h + k + l + m == (a + b) + (c + d + e + f + g + h + k + l + m) + Seq::<char>::empty(),
{
    assert(a + b + c + d + e + f + g + h + k + l + m =~= (a + b) + (c + d + e + f + g + h + k + l + m) + Seq::<char>::empty());
}

proof fn lemma_regroup_page(
    a: Seq<char>,
    b: Seq<char>,
    c: Seq<char>,
    d: Seq<char>,
    e: Seq<char>,
    f: Seq<char>,
    g: Seq<char>,
    h: Seq<char>,
    k: Seq<char>,
)
    ensures
        a + b + c + d + e + f + g + h + k == (a + b) + (c + d + e + f + g + h + k),
{
    assert(a + b + c + d + e + f + g + h + k =~= (a + b) + (c + d + e + f + g + h + k));
}

proof fn lemma_link_has_text(active: bool, id: Seq<char>, icon: Seq<char>, label: Seq<char>, count: nat)
    ensures
        contains_seq(sidebar_link_spec(active, id, icon, label, count), link_text(id, icon, label, count)),
{
    let t = link_text(id, icon, label, count);
    let head = template::LINK_OPEN@ + active_class(active);
    lemma_regroup_link(
        template::LINK_OPEN@,
        active_class(active),
        template::LINK_TARGET@,
        id,
        template::LINK_ICON@,
        icon,
        template::LINK_LABEL@,
        label,
        template::LINK_COUNT@,
        decimal(count),
        template::LINK_CLOSE@,
    );
    lemma_contains_self(t);
    lemma_contains_in_concat(head, t, Seq::empty(), t);
}

proof fn lemma_contains_after(a: Seq<char>, b: Seq<char>, p: Seq<char>)
    requires
        contains_seq(b, p),
    ensures
        contains_seq(a + b, p),
{
    lemma_contains_in_concat(a, b, Seq::empty(), p);
    assert(a + b + Seq::<char>::empty() =~= a + b);
}

proof fn lemma_contains_before(a: Seq<char>, b: Seq<char>, p: Seq<char>)
    requires
        contains_seq(a, p),
    ensures
        contains_seq(a + b, p),
{
    lemma_contains_in_concat(Seq::empty(), a, b, p);
    assert(Seq::<char>::empty() + a + b =~= a + b);
}

proof fn lemma_module_links_contain(docs: Seq<ModuleDoc>, i: int)
    requires
        0 <= i < docs.len(),
    ensures
        contains_seq(module_links(docs), module_link_text(i, docs[i])),
    decreases docs.len(),
{
    let n = docs.len();
    let m = docs.last();
    let prev = module_links(docs.drop_last());
    let link = sidebar_link_spec(
        false,
        "mod-"@ + decimal((n - 1) as nat),
        module_icon_spec(m.name@),
        escape_html_spec(m.name@),
        m.symbols@.len(),
    );
    assert(module_links(docs) == prev + link);
    if i < n - 1 {
        lemma_module_links_contain(docs.drop_last(), i);
        assert(docs.drop_last()[i] == docs[i]);
        lemma_contains_before(prev, link, module_link_text(i, docs[i]));
    } else {
        lemma_link_has_text(
            false,
            "mod-"@ + decimal((n - 1) as nat),
            module_icon_spec(m.name@),
            escape_html_spec(m.name@),
            m.symbols@.len(),
        );
        lemma_contains_after(prev, link, module_link_text(i, docs[i]));
    }
}

proof fn lemma_page_has_text(
    id: Seq<char>,
    search: Seq<char>,
    count: nat,
    head: Seq<char>,
    rows: Seq<char>,
    active: bool,
)
    ensures
        contains_seq(
            template::PAGE_OPEN@ + active_class(active) + page_text(id, search, count, head, rows),
            page_text(id, search, count, head, rows),
        ),
{
    let t = page_text(id, search, count, head, rows);
    lemma_contains_self(t);
    lemma_contains_after(template::PAGE_OPEN@ + active_class(active), t, t);
}

proof fn lemma_module_pages_contain(docs: Seq<ModuleDoc>, i: int)
    requires
        0 <= i < docs.len(),
    ensures
        contains_seq(module_pages(docs), module_page_text(i, docs[i])),
    decreases docs.len(),
{
    let n = docs.len();
    let m = docs.last();
    let prev = module_pages(docs.drop_last());
    let page = module_page_spec("mod-"@ + decimal((n - 1) as nat), m.symbols@, false);
    assert(module_pages(docs) == prev + "\n"@ + page);
    if i < n - 1 {
        lemma_module_pages_contain(docs.drop_last(), i);
        assert(docs.drop_last()[i] == docs[i]);
        lemma_contains_before(prev, "\n"@, module_page_text(i, docs[i]));
        lemma_contains_before(prev + "\n"@, page, module_page_text(i, docs[i]));
    } else {
        let t = module_page_text(i, docs[i]);
        lemma_regroup_page(
            template::PAGE_OPEN@,
            active_class(false),
            template::PAGE_ID@,
            "mod-"@ + decimal((n - 1) as nat),
            template::FUNCTION_PAGE_SEARCH@,
            decimal(m.symbols@.len()),
            template::FUNCTION_PAGE_TABLE@,
            join(symbol_rows_html(m.symbols@), "\n"@),
            template::PAGE_CLOSE@,
        );
        lemma_page_has_text(
            "mod-"@ + decimal((n - 1) as nat),
            template::FUNCTION_PAGE_SEARCH@,
            m.symbols@.len(),
            template::FUNCTION_PAGE_TABLE@,
            join(symbol_rows_html(m.symbols@), "\n"@),
            false,
        );
        lemma_contains_after(prev + "\n"@, page, t);
    }
}

proof fn lemma_selector_links_contain(docs: Seq<ModuleDoc>, i: int)
    requires
        0 <= i < docs.len(),
        docs[i].selectors@.len() > 0,
    ensures
        contains_seq(selector_links(docs), selector_link_text(i, docs[i])),
    decreases docs.len(),
{
    let n = docs.len();
    let m = docs.last();
    let prev = selector_links(docs.drop_last());
    if i < n - 1 {
        lemma_selector_links_contain(docs.drop_last(), i);
        assert(docs.drop_last()[i] == docs[i]);
        if m.selectors@.len() == 0 {
            assert(selector_links(docs) == prev);
        } else {
            let link = sidebar_link_spec(
                false,
                "sel-"@ + decimal((n - 1) as nat),
                selector_icon_spec(),
                escape_html_spec(m.name@),
                m.selectors@.len(),
            );
            assert(selector_links(docs) == prev + link);
            lemma_contains_before(prev, link, selector_link_text(i, docs[i]));
        }
    } else {
        let link = sidebar_link_spec(
            false,
            "sel-"@ + decimal((n - 1) as nat),
            selector_icon_spec(),
            escape_html_spec(m.name@),
            m.selectors@.len(),
        );
        assert(selector_links(docs) == prev + link);
        lemma_link_has_text(
            false,
            "sel-"@ + decimal((n - 1) as nat),
            selector_icon_spec(),
            escape_html_spec(m.name@),
            m.selectors@.len(),
        );
        lemma_contains_after(prev, link, selector_link_text(i, docs[i]));
    }
}

proof fn lemma_selector_pages_contain(docs: Seq<ModuleDoc>, i: int)
    requires
        0 <= i < docs.len(),
        docs[i].selectors@.len() > 0,
    ensures
        contains_seq(selector_pages(docs), selector_page_text(i, docs[i])),
    decreases docs.len(),
{
    let n = docs.len();
    let m = docs.last();
    let prev = selector_pages(docs.drop_last());
    if i < n - 1 {
        lemma_selector_pages_contain(docs.drop_last(), i);
        assert(docs.drop_last()[i] == docs[i]);
        if m.selectors@.len() == 0 {
            assert(selector_pages(docs) == prev);
        } else {
            let page = selector_page_spec("sel-"@ + decimal((n - 1) as nat), m.selectors@, false);
            assert(selector_pages(docs) == prev + "\n"@ + page);
            lemma_contains_before(prev, "\n"@, selector_page_text(i, docs[i]));
            lemma_contains_before(prev + "\n"@, page, selector_page_text(i, docs[i]));
        }
    } else {
        let page = selector_page_spec("sel-"@ + decimal((n - 1) as nat), m.selectors@, false);
        assert(selector_pages(docs) == prev + "\n"@ + page);
        let t = selector_page_text(i, docs[i]);
        lemma_regroup_page(
            template::PAGE_OPEN@,
            active_class(false),
            template::PAGE_ID@,
            "sel-"@ + decimal((n - 1) as nat),
            template::SELECTOR_PAGE_SEARCH@,
            decimal(m.selectors@.len()),
            template::SELECTOR_PAGE_TABLE@,
            join(selector_rows_html(m.selectors@), "\n"@),
            template::PAGE_CLOSE@,
        );
        lemma_page_has_text(
            "sel-"@ + decimal((n - 1) as nat),
            template::SELECTOR_PAGE_SEARCH@,
            m.selectors@.len(),
            template::SELECTOR_PAGE_TABLE@,
            join(selector_rows_html(m.selectors@), "\n"@),
            false,
        );
        lemma_contains_after(prev + "\n"@, page, t);
    }
}

/// With several modules, the page shows for the `i`-th module a sidebar link to
/// `mod-i` with the module's icon, name and number of functions, and a page with
/// id `mod-i` holding that module's function rows: every module link leads to
/// the page of its own module.
pub proof fn lemma_module_links_match_pages(docs: Seq<ModuleDoc>, i: int)
    requires
        docs.len() > 1,
        0 <= i < docs.len(),
    ensures
        contains_seq(
            format_html_spec(docs),
            link_text(
                "mod-"@ + decimal(i as nat),
                module_icon_spec(docs[i].name@),
                escape_html_spec(docs[i].name@),
                docs[i].symbols@.len(),
            ),
        ),
        contains_seq(
            format_html_spec(docs),
            page_text(
                "mod-"@ + decimal(i as nat),
                template::FUNCTION_PAGE_SEARCH@,
                docs[i].symbols@.len(),
                template::FUNCTION_PAGE_TABLE@,
                join(symbol_rows_html(docs[i].symbols@), "\n"@),
            ),
        ),
{
    let head = template::HTML_HEAD@;
    let items = sidebar_items_spec(docs);
    let section = selector_section_spec(docs);
    let pages = pages_spec(docs);
    let link = module_link_text(i, docs[i]);
    let all_link = sidebar_link_spec(true, "mod-all"@, svg_icon_spec(template::GRID_SHAPES@), "All"@, all_symbols(docs).len());
    assert(items == all_link + module_links(docs));
    lemma_module_links_contain(docs, i);
    lemma_contains_after(all_link, module_links(docs), link);
    lemma_document_contains_items(docs, link);

    let page = module_page_text(i, docs[i]);
    let all_page = module_page_spec("mod-all"@, all_symbols(docs), true);
    lemma_module_pages_contain(docs, i);
    lemma_contains_after(all_page, module_pages(docs), page);
    let function_pages = all_page + module_pages(docs);
    if any_selectors(docs) {
        assert(pages == function_pages + selector_pages(docs));
        lemma_contains_before(function_pages, selector_pages(docs), page);
    } else {
        assert(pages == function_pages);
    }
    lemma_document_contains_pages(docs, page);
}

proof fn lemma_document_contains_items(docs: Seq<ModuleDoc>, p: Seq<char>)
    requires
        contains_seq(sidebar_items_spec(docs), p),
    ensures
        contains_seq(format_html_spec(docs), p),
{
    let head = template::HTML_HEAD@;
    let items = sidebar_items_spec(docs);
    lemma_contains_after(head, items, p);
    lemma_contains_before(head + items, template::NAV_CLOSE@, p);
    lemma_contains_before(head + items + template::NAV_CLOSE@, selector_section_spec(docs), p);
    lemma_contains_before(head + items + template::NAV_CLOSE@ + selector_section_spec(docs), template::CONTENT_OPEN@, p);
    lemma_contains_before(
        head + items + template::NAV_CLOSE@ + selector_section_spec(docs) + template::CONTENT_OPEN@,
        pages_spec(docs),
        p,
    );
    lemma_contains_before(
        head + items + template::NAV_CLOSE@ + selector_section_spec(docs) + template::CONTENT_OPEN@ + pages_spec(docs),
        template::HTML_TAIL@,
        p,
    );
}

proof fn lemma_document_contains_section(docs: Seq<ModuleDoc>, p: Seq<char>)
    requires
        contains_seq(selector_section_spec(docs), p),
    ensures
        contains_seq(format_html_spec(docs), p),
{
    let pre = template::HTML_HEAD@ + sidebar_items_spec(docs) + template::NAV_CLOSE@;
    let section = selector_section_spec(docs);
    lemma_contains_after(pre, section, p);
    lemma_contains_before(pre + section, template::CONTENT_OPEN@, p);
    lemma_contains_before(pre + section + template::CONTENT_OPEN@, pages_spec(docs), p);
    lemma_contains_before(pre + section + template::CONTENT_OPEN@ + pages_spec(docs), template::HTML_TAIL@, p);
}

proof fn lemma_document_contains_pages(docs: Seq<ModuleDoc>, p: Seq<char>)
    requires
        contains_seq(pages_spec(docs), p),
    ensures
        contains_seq(format_html_spec(docs), p),
{
    let pre = template::HTML_HEAD@ + sidebar_items_spec(docs) + template::NAV_CLOSE@ + selector_section_spec(docs)
        + template::CONTENT_OPEN@;
    lemma_contains_after(pre, pages_spec(docs), p);
    lemma_contains_before(pre + pages_spec(docs), template::HTML_TAIL@, p);
}

/// For every module with selectors, the page's Selectors section shows a link
/// to `sel-i` with the selector icon, the module's name and its number of
/// selectors, and a page with id `sel-i` holds the same number and the module's
/// selector rows: the link's count is the count of the page it leads to.
pub proof fn lemma_selector_links_match_pages(docs: Seq<ModuleDoc>, i: int)
    requires
        0 <= i < docs.len(),
        docs[i].selectors@.len() > 0,
    ensures
        contains_seq(
            format_html_spec(docs),
            link_text(
                "sel-"@ + decimal(i as nat),
                selector_icon_spec(),
                escape_html_spec(docs[i].name@),
                docs[i].selectors@.len(),
            ),
        ),
        contains_seq(
            format_html_spec(docs),
            page_text(
                "sel-"@ + decimal(i as nat),
                template::SELECTOR_PAGE_SEARCH@,
                docs[i].selectors@.len(),
                template::SELECTOR_PAGE_TABLE@,
                join(selector_rows_html(docs[i].selectors@), "\n"@),
            ),
        ),
{
    assert(any_selectors(docs));
    let link = selector_link_text(i, docs[i]);
    lemma_selector_links_contain(docs, i);
    assert(selector_section_spec(docs) == template::SECTION_OPEN@ + selector_links(docs) + template::SECTION_CLOSE@);
    lemma_contains_in_concat(template::SECTION_OPEN@, selector_links(docs), template::SECTION_CLOSE@, link);
    lemma_document_contains_section(docs, link);

    let page = selector_page_text(i, docs[i]);
    lemma_selector_pages_contain(docs, i);
    let function_pages = if docs.len() > 1 {
        module_page_spec("mod-all"@, all_symbols(docs), true) + module_pages(docs)
    } else {
        module_page_spec("mod-all"@, docs[0].symbols@, true)
    };
    assert(pages_spec(docs) == function_pages + selector_pages(docs));
    lemma_contains_after(function_pages, selector_pages(docs), page);
    lemma_document_contains_pages(docs, page);
}

/// The first page is the active page `mod-all`, and the first sidebar link leads
/// to it. With several modules it shows every module's functions, one module
/// after the other, under the label `All` with their total number; with one
/// module it shows that module's functions under its name and icon.
pub proof fn lemma_first_link_and_page(docs: Seq<ModuleDoc>)
    requires
        docs.len() > 0,
    ensures
        ({
            let rows = if docs.len() > 1 { all_symbols(docs) } else { docs[0].symbols@ };
            let icon = if docs.len() > 1 { svg_icon_spec(template::GRID_SHAPES@) } else { module_icon_spec(docs[0].name@) };
            let label = if docs.len() > 1 { "All"@ } else { escape_html_spec(docs[0].name@) };
            &&& contains_seq(format_html_spec(docs), link_text("mod-all"@, icon, label, rows.len()))
            &&& contains_seq(
                format_html_spec(docs),
                page_text(
                    "mod-all"@,
                    template::FUNCTION_PAGE_SEARCH@,
                    rows.len(),
                    template::FUNCTION_PAGE_TABLE@,
                    join(symbol_rows_html(rows), "\n"@),
                ),
            )
        }),
{
    let rows = if docs.len() > 1 { all_symbols(docs) } else { docs[0].symbols@ };
    let icon = if docs.len() > 1 { svg_icon_spec(template::GRID_SHAPES@) } else { module_icon_spec(docs[0].name@) };
    let label = if docs.len() > 1 { "All"@ } else { escape_html_spec(docs[0].name@) };
    let link = link_text("mod-all"@, icon, label, rows.len());
    let first = sidebar_link_spec(true, "mod-all"@, icon, label, rows.len());
    lemma_link_has_text(true, "mod-all"@, icon, label, rows.len());
    if docs.len() > 1 {
        assert(sidebar_items_spec(docs) == first + module_links(docs));
        lemma_contains_before(first, module_links(docs), link);
    } else {
        assert(sidebar_items_spec(docs) == first);
    }
    lemma_document_contains_items(docs, link);

    let page = page_text(
        "mod-all"@,
        template::FUNCTION_PAGE_SEARCH@,
        rows.len(),
        template::FUNCTION_PAGE_TABLE@,
        join(symbol_rows_html(rows), "\n"@),
    );
    let all_page = module_page_spec("mod-all"@, rows, true);
    lemma_regroup_page(
        template::PAGE_OPEN@,
        active_class(true),
        template::PAGE_ID@,
        "mod-all"@,
        template::FUNCTION_PAGE_SEARCH@,
        decimal(rows.len()),
        template::FUNCTION_PAGE_TABLE@,
        join(symbol_rows_html(rows), "\n"@),
        template::PAGE_CLOSE@,
    );
    lemma_page_has_text(
        "mod-all"@,
        template::FUNCTION_PAGE_SEARCH@,
        rows.len(),
        template::FUNCTION_PAGE_TABLE@,
        join(symbol_rows_html(rows), "\n"@),
        true,
    );
    let function_pages = if docs.len() > 1 { all_page + module_pages(docs) } else { all_page };
    if docs.len() > 1 {
        lemma_contains_before(all_page, module_pages(docs), page);
    }
    if any_selectors(docs) {
        assert(pages_spec(docs) == function_pages + selector_pages(docs));
        lemma_contains_before(function_pages, selector_pages(docs), page);
    } else {
        assert(pages_spec(docs) == function_pages);
    }
    lemma_document_contains_pages(docs, page);
}

/// A sidebar link to the page `id`.
pub open spec fn sidebar_link_spec(
    active: bool,
    id: Seq<char>,
    icon: Seq<char>,
    label: Seq<char>,
    count: nat,
) -> Seq<char> {
    template::LINK_OPEN@ + active_class(active) + template::LINK_TARGET@ + id
        + template::LINK_ICON@ + icon + template::LINK_LABEL@ + label + template::LINK_COUNT@
        + decimal(count) + template::LINK_CLOSE@
}

/// Some module has selectors.
pub open spec fn any_selectors(docs: Seq<ModuleDoc>) -> bool {
    exists|i: int| 0 <= i < docs.len() && docs[i].selectors@.len() > 0
}

/// The sidebar links to the function page of each module, the `i`-th to `mod-i`.
pub open spec fn module_links(docs: Seq<ModuleDoc>) -> Seq<char>
    decreases docs.len(),
{
    if docs.len() == 0 {
        Seq::empty()
    } else {
        let m = docs.last();
        module_links(docs.drop_last()) + sidebar_link_spec(
            false,
            "mod-"@ + decimal((docs.len() - 1) as nat),
            module_icon_spec(m.name@),
            escape_html_spec(m.name@),
            m.symbols@.len(),
        )
    }
}

/// The sidebar links to the selector page of each module that has selectors, the
/// `i`-th to `sel-i`.
pub open spec fn selector_links(docs: Seq<ModuleDoc>) -> Seq<char>
    decreases docs.len(),
{
    if docs.len() == 0 {
        Seq::empty()
    } else {
        let m = docs.last();
        if m.selectors@.len() == 0 {
            selector_links(docs.drop_last())
        } else {
            selector_links(docs.drop_last()) + sidebar_link_spec(
                false,
                "sel-"@ + decimal((docs.len() - 1) as nat),
                selector_icon_spec(),
                escape_html_spec(m.name@),
                m.selectors@.len(),
            )
        }
    }
}

/// The function page of each module, the `i`-th with id `mod-i`, each after a newline.
pub open spec fn module_pages(docs: Seq<ModuleDoc>) -> Seq<char>
    decreases docs.len(),
{
    if docs.len() == 0 {
        Seq::empty()
    } else {
        module_pages(docs.drop_last()) + "\n"@ + module_page_spec(
            "mod-"@ + decimal((docs.len() - 1) as nat),
            docs.last().symbols@,
            false,
        )
    }
}

/// The selector page of each module that has selectors, the `i`-th with id
/// `sel-i`, each after a newline.
pub open spec fn selector_pages(docs: Seq<ModuleDoc>) -> Seq<char>
    decreases docs.len(),
{
    if docs.len() == 0 {
        Seq::empty()
    } else if docs.last().selectors@.len() == 0 {
        selector_pages(docs.drop_last())
    } else {
        selector_pages(docs.drop_last()) + "\n"@ + selector_page_spec(
            "sel-"@ + decimal((docs.len() - 1) as nat),
            docs.last().selectors@,
            false,
        )
    }
}

/// The module section of the sidebar: with several modules an active "All" link
/// followed by one link per module, with a single module one active link to it.
pub open spec fn sidebar_items_spec(docs: Seq<ModuleDoc>) -> Seq<char> {
    if docs.len() > 1 {
        sidebar_link_spec(
            true,
            "mod-all"@,
            svg_icon_spec(template::GRID_SHAPES@),
            "All"@,
            all_symbols(docs).len(),
        ) + module_links(docs)
    } else {
        sidebar_link_spec(
            true,
            "mod-all"@,
            module_icon_spec(docs[0].name@),
            escape_html_spec(docs[0].name@),
            docs[0].symbols@.len(),
        )
    }
}

/// The selector section of the sidebar, present when some module has selectors.
pub open spec fn selector_section_spec(docs: Seq<ModuleDoc>) -> Seq<char> {
    if any_selectors(docs) {
        template::SECTION_OPEN@ + selector_links(docs) + template::SECTION_CLOSE@
    } else {
        Seq::empty()
    }
}

/// The pages: with several modules an active page of all functions followed by
/// one page per module, with a single module one active page; then the selector
/// pages.
pub open spec fn pages_spec(docs: Seq<ModuleDoc>) -> Seq<char> {
    let function_pages = if docs.len() > 1 {
        module_page_spec("mod-all"@, all_symbols(docs), true) + module_pages(docs)
    } else {
        module_page_spec("mod-all"@, docs[0].symbols@, true)
    };
    if any_selectors(docs) {
        function_pages + selector_pages(docs)
    } else {
        function_pages
    }
}

/// The whole HTML document.
pub open spec fn format_html_spec(docs: Seq<ModuleDoc>) -> Seq<char> {
    template::HTML_HEAD@ + sidebar_items_spec(docs) + template::NAV_CLOSE@
        + selector_section_spec(docs) + template::CONTENT_OPEN@ + pages_spec(docs)
        + template::HTML_TAIL@
}

/// Generates an inline SVG icon with the given inner elements.
pub fn svg_icon(inner: &str) -> (res: String)
    ensures
        res@ == svg_icon_spec(inner@),
{
    let mut out = String::from_str(template::SVG_OPEN);
    out.append(inner);
    out.append(template::SVG_CLOSE);
    out
}

/// Returns the icon for a module name.
pub fn module_icon(name: &str) -> (res: String)
    ensures
        res@ == module_icon_spec(name@),
{
    if starts_with(name, "Built-in") {
        svg_icon(template::CUBE_SHAPES)
    } else {
        svg_icon(template::PACKAGE_SHAPES)
    }
}

/// Returns the icon for selector entries.
pub fn selector_icon() -> (res: String)
    ensures
        res@ == selector_icon_spec(),
{
    svg_icon(template::TARGET_SHAPES)
}

/// The escaped text of `cs[lo..hi]`.
fn escape_range(cs: &Vec<char>, lo: usize, hi: usize) -> (res: String)
    requires
        lo <= hi <= cs.len(),
    ensures
        res@ == escape_html_spec(cs@.subrange(lo as int, hi as int)),
{
    let piece = string_of_range(cs, lo, hi);
    escape_html(piece.as_str())
}

/// A code element holding the escaped text of `s` without its backticks.
fn code_element(s: &Vec<char>) -> (res: String)
    ensures
        res@ == code_html(s@),
{
    let tick = chars_of("`");
    let lo = trim_start_index(s, 0, &tick);
    let hi = trim_end_index(s, lo, s.len(), &tick);
    proof {
        assert(s@.subrange(0, s@.len() as int) == s@);
    }
    let mut out = String::from_str("<code>");
    let inner = escape_range(s, lo, hi);
    out.append(inner.as_str());
    out.append("</code>");
    out
}

/// The name cell of a function row.
fn name_cell(name: &str) -> (res: String)
    ensures
        res@ == name_html(name@),
{
    let cs = chars_of(name);
    if starts_with(name, "~~") {
        let open = chars_of("~~`");
        let close = chars_of("`~~");
        let lo = trim_start_index(&cs, 0, &open);
        let hi = trim_end_index(&cs, lo, cs.len(), &close);
        proof {
            assert(cs@.subrange(0, cs@.len() as int) == cs@);
        }
        let mut out = String::from_str("<del><code>");
        let inner = escape_range(&cs, lo, hi);
        out.append(inner.as_str());
        out.append("</code></del>");
        out
    } else {
        code_element(&cs)
    }
}

/// The parameter cell of a function row.
fn args_cell(args: &str) -> (res: String)
    ensures
        res@ == args_html(args@),
{
    let cs = chars_of(args);
    let sep = chars_of(", ");
    proof {
        reveal_strlit(", ");
    }
    let parts = split_chars(&cs, &sep);
    let ghost pieces = parts@.map_values(|v: Vec<char>| v@);
    let mut codes: Vec<String> = Vec::new();
    let mut i: usize = 0;
    while i < parts.len()
        invariant
            i <= parts.len(),
            pieces == parts@.map_values(|v: Vec<char>| v@),
            strings_view(codes@) == arg_codes(pieces.take(i as int)),
        decreases parts.len() - i,
    {
        proof {
            assert(pieces.take(i + 1).drop_last() == pieces.take(i as int));
            assert(pieces.take(i + 1).last() == parts@[i as int]@);
        }
        if parts[i].len() > 0 {
            let code = code_element(&parts[i]);
            proof {
                assert(strings_view(codes@.push(code)) == strings_view(codes@).push(code@));
            }
            codes.push(code);
        }
        i = i + 1;
    }
    proof {
        assert(pieces.take(pieces.len() as int) == pieces);
    }
    join_strings(&codes, ", ")
}

/// The table row of a function.
fn symbol_row(r: &[String; 4]) -> (res: String)
    ensures
        res@ == symbol_row_html(*r),
{
    let mut out = String::from_str(template::ROW_START);
    let name = name_cell(r[0].as_str());
    out.append(name.as_str());
    out.append(template::CELL_BREAK);
    let desc = escape_html(r[1].as_str());
    out.append(desc.as_str());
    out.append(template::CELL_BREAK);
    let args = args_cell(r[2].as_str());
    out.append(args.as_str());
    out.append(template::CODE_CELL_BREAK);
    let example = escape_html(r[3].as_str());
    out.append(example.as_str());
    out.append(template::CODE_ROW_END);
    out
}

/// The table row of a selector.
fn selector_row(r: &[String; 2]) -> (res: String)
    ensures
        res@ == selector_row_html(*r),
{
    let mut out = String::from_str(template::ROW_START);
    let cs = chars_of(r[0].as_str());
    let name = code_element(&cs);
    out.append(name.as_str());
    out.append(template::CELL_BREAK);
    let desc = escape_html(r[1].as_str());
    out.append(desc.as_str());
    out.append(template::ROW_END);
    out
}

/// Builds the HTML table rows of a set of functions.
pub fn build_table_rows(symbols: &VecDeque<[String; 4]>) -> (res: String)
    ensures
        res@ == join(symbol_rows_html(symbols@), "\n"@),
{
    let mut rows: Vec<String> = Vec::new();
    let mut i: usize = 0;
    while i < symbols.len()
        invariant
            i <= symbols@.len(),
            strings_view(rows@) == symbol_rows_html(symbols@.take(i as int)),
        decreases symbols@.len() - i,
    {
        let row = symbol_row(&symbols[i]);
        proof {
            assert(symbols@.take(i + 1).drop_last() == symbols@.take(i as int));
            assert(strings_view(rows@.push(row)) == strings_view(rows@).push(row@));
        }
        rows.push(row);
        i = i + 1;
    }
    proof {
        assert(symbols@.take(symbols@.len() as int) == symbols@);
    }
    join_strings(&rows, "\n")
}

/// Builds the HTML table rows of a set of selectors.
pub fn build_selector_table_rows(selectors: &VecDeque<[String; 2]>) -> (res: String)
    ensures
        res@ == join(selector_rows_html(selectors@), "\n"@),
{
    let mut rows: Vec<String> = Vec::new();
    let mut i: usize = 0;
    while i < selectors.len()
        invariant
            i <= selectors@.len(),
            strings_view(rows@) == selector_rows_html(selectors@.take(i as int)),
        decreases selectors@.len() - i,
    {
        let row = selector_row(&selectors[i]);
        proof {
            assert(selectors@.take(i + 1).drop_last() == selectors@.take(i as int));
            assert(strings_view(rows@.push(row)) == strings_view(rows@).push(row@));
        }
        rows.push(row);
        i = i + 1;
    }
    proof {
        assert(selectors@.take(selectors@.len() as int) == selectors@);
    }
    join_strings(&rows, "\n")
}

/// The opening of a page block up to and including its id.
fn page_opening(id: &str, active: bool) -> (res: String)
    ensures
        res@ == template::PAGE_OPEN@ + active_class(active) + template::PAGE_ID@ + id@,
{
    let mut out = String::from_str(template::PAGE_OPEN);
    if active {
        out.append(" active");
    } else {
        proof {
            assert(out@ + active_class(active) == out@);
        }
    }
    out.append(template::PAGE_ID);
    out.append(id);
    out
}

/// Builds the page block of a module's function table.
pub fn build_module_page(id: &str, symbols: &VecDeque<[String; 4]>, active: bool) -> (res: String)
    ensures
        res@ == module_page_spec(id@, symbols@, active),
{
    let rows = build_table_rows(symbols);
    let count = decimal_string(symbols.len());
    let mut out = page_opening(id, active);
    out.append(template::FUNCTION_PAGE_SEARCH);
    out.append(count.as_str());
    out.append(template::FUNCTION_PAGE_TABLE);
    out.append(rows.as_str());
    out.append(template::PAGE_CLOSE);
    out
}

/// Builds the page block of a module's selector table.
pub fn build_selector_page(id: &str, selectors: &VecDeque<[String; 2]>, active: bool) -> (res: String)
    ensures
        res@ == selector_page_spec(id@, selectors@, active),
{
    let rows = build_selector_table_rows(selectors);
    let count = decimal_string(selectors.len());
    let mut out = page_opening(id, active);
    out.append(template::SELECTOR_PAGE_SEARCH);
    out.append(count.as_str());
    out.append(template::SELECTOR_PAGE_TABLE);
    out.append(rows.as_str());
    out.append(template::PAGE_CLOSE);
    out
}

/// A sidebar link to the page `id`.
fn sidebar_link(active: bool, id: &str, icon: &str, label: &str, count: usize) -> (res: String)
    ensures
        res@ == sidebar_link_spec(active, id@, icon@, label@, count as nat),
{
    let mut out = String::from_str(template::LINK_OPEN);
    if active {
        out.append(" active");
    } else {
        proof {
            assert(out@ + active_class(active) == out@);
        }
    }
    out.append(template::LINK_TARGET);
    out.append(id);
    out.append(template::LINK_ICON);
    out.append(icon);
    out.append(template::LINK_LABEL);
    out.append(label);
    out.append(template::LINK_COUNT);
    let digits = decimal_string(count);
    out.append(digits.as_str());
    out.append(template::LINK_CLOSE);
    out
}

/// The id `prefix` followed by the decimal index `i`.
fn indexed_id(prefix: &str, i: usize) -> (res: String)
    ensures
        res@ == prefix@ + decimal(i as nat),
{
    let mut out = String::from_str(prefix);
    let digits = decimal_string(i);
    out.append(digits.as_str());
    out
}

/// Two sequences of function rows whose rows hold the same texts.
pub open spec fn same_rows(a: Seq<[String; 4]>, b: Seq<[String; 4]>) -> bool {
    a.len() == b.len() && forall|k: int| 0 <= k < a.len() ==> a[k]@ == b[k]@
}

proof fn lemma_same_rows_html(a: Seq<[String; 4]>, b: Seq<[String; 4]>)
    requires
        same_rows(a, b),
    ensures
        symbol_rows_html(a) == symbol_rows_html(b),
    decreases a.len(),
{
    if a.len() > 0 {
        lemma_same_rows_html(a.drop_last(), b.drop_last());
        let x = a.last();
        let y = b.last();
        assert(x@ == y@);
        assert(x[0] == y[0] && x[1] == y[1] && x[2] == y[2] && x[3] == y[3]);
    }
}

/// Whether some module has selectors.
fn has_any_selectors(module_docs: &[ModuleDoc]) -> (res: bool)
    ensures
        res == any_selectors(module_docs@),
{
    let mut i: usize = 0;
    while i < module_docs.len()
        invariant
            i <= module_docs.len(),
            forall|k: int| 0 <= k < i ==> module_docs@[k].selectors@.len() == 0,
        decreases module_docs.len() - i,
    {
        if module_docs[i].selectors.len() > 0 {
            return true;
        }
        i = i + 1;
    }
    false
}

/// Copies of the function rows of all modules, module after module.
fn collect_all_symbols(module_docs: &[ModuleDoc]) -> (res: VecDeque<[String; 4]>)
    ensures
        same_rows(res@, all_symbols(module_docs@)),
{
    let mut out: VecDeque<[String; 4]> = VecDeque::new();
    let mut i: usize = 0;
    while i < module_docs.len()
        invariant
            i <= module_docs.len(),
            same_rows(out@, all_symbols(module_docs@.take(i as int))),
        decreases module_docs.len() - i,
    {
        let m = &module_docs[i];
        let ghost before = all_symbols(module_docs@.take(i as int));
        let mut j: usize = 0;
        while j < m.symbols.len()
            invariant
                j <= m.symbols@.len(),
                same_rows(out@, before + m.symbols@.take(j as int)),
            decreases m.symbols@.len() - j,
        {
            let r = &m.symbols[j];
            let copy: [String; 4] = [r[0].clone(), r[1].clone(), r[2].clone(), r[3].clone()];
            proof {
                assert(copy@ =~= r@);
            }
            out.push_back(copy);
            proof {
                let target = before + m.symbols@.take(j + 1);
                assert(target == (before + m.symbols@.take(j as int)).push(*r));
            }
            j = j + 1;
        }
        proof {
            assert(module_docs@.take(i + 1).drop_last() == module_docs@.take(i as int));
            assert(m.symbols@.take(m.symbols@.len() as int) == m.symbols@);
        }
        i = i + 1;
    }
    proof {
        assert(module_docs@.take(module_docs@.len() as int) == module_docs@);
    }
    out
}

/// The sidebar links to the function page of each module.
fn module_links_html(module_docs: &[ModuleDoc]) -> (res: String)
    ensures
        res@ == module_links(module_docs@),
{
    let mut out = String::new();
    let mut i: usize = 0;
    while i < module_docs.len()
        invariant
            i <= module_docs.len(),
            out@ == module_links(module_docs@.take(i as int)),
        decreases module_docs.len() - i,
    {
        let m = &module_docs[i];
        let id = indexed_id("mod-", i);
        let icon = module_icon(m.name.as_str());
        let label = escape_html(m.name.as_str());
        let link = sidebar_link(false, id.as_str(), icon.as_str(), label.as_str(), m.symbols.len());
        proof {
            let t = module_docs@.take(i + 1);
            assert(t.drop_last() == module_docs@.take(i as int));
            assert(t.last() == module_docs@[i as int]);
        }
        out.append(link.as_str());
        i = i + 1;
    }
    proof {
        assert(module_docs@.take(module_docs@.len() as int) == module_docs@);
    }
    out
}

/// The sidebar links to the selector page of each module that has selectors.
fn selector_links_html(module_docs: &[ModuleDoc]) -> (res: String)
    ensures
        res@ == selector_links(module_docs@),
{
    let mut out = String::new();
    let mut i: usize = 0;
    while i < module_docs.len()
        invariant
            i <= module_docs.len(),
            out@ == selector_links(module_docs@.take(i as int)),
        decreases module_docs.len() - i,
    {
        let m = &module_docs[i];
        proof {
            let t = module_docs@.take(i + 1);
            assert(t.drop_last() == module_docs@.take(i as int));
            assert(t.last() == module_docs@[i as int]);
        }
        if m.selectors.len() > 0 {
            let id = indexed_id("sel-", i);
            let icon = selector_icon();
            let label = escape_html(m.name.as_str());
            let link = sidebar_link(false, id.as_str(), icon.as_str(), label.as_str(), m.selectors.len());
            out.append(link.as_str());
        }
        i = i + 1;
    }
    proof {
        assert(module_docs@.take(module_docs@.len() as int) == module_docs@);
    }
    out
}

/// The function page of each module, each after a newline.
fn module_pages_html(module_docs: &[ModuleDoc]) -> (res: String)
    ensures
        res@ == module_pages(module_docs@),
{
    let mut out = String::new();
    let mut i: usize = 0;
    while i < module_docs.len()
        invariant
            i <= module_docs.len(),
            out@ == module_pages(module_docs@.take(i as int)),
        decreases module_docs.len() - i,
    {
        let id = indexed_id("mod-", i);
        let page = build_module_page(id.as_str(), &module_docs[i].symbols, false);
        proof {
            let t = module_docs@.take(i + 1);
            assert(t.drop_last() == module_docs@.take(i as int));
            assert(t.last() == module_docs@[i as int]);
        }
        out.append("\n");
        out.append(page.as_str());
        i = i + 1;
    }
    proof {
        assert(module_docs@.take(module_docs@.len() as int) == module_docs@);
    }
    out
}

/// The selector page of each module that has selectors, each after a newline.
fn selector_pages_html(module_docs: &[ModuleDoc]) -> (res: String)
    ensures
        res@ == selector_pages(module_docs@),
{
    let mut out = String::new();
    let mut i: usize = 0;
    while i < module_docs.len()
        invariant
            i <= module_docs.len(),
            out@ == selector_pages(module_docs@.take(i as int)),
        decreases module_docs.len() - i,
    {
        let m = &module_docs[i];
        proof {
            let t = module_docs@.take(i + 1);
            assert(t.drop_last() == module_docs@.take(i as int));
            assert(t.last() == module_docs@[i as int]);
        }
        if m.selectors.len() > 0 {
            let id = indexed_id("sel-", i);
            let page = build_selector_page(id.as_str(), &m.selectors, false);
            out.append("\n");
            out.append(page.as_str());
        }
        i = i + 1;
    }
    proof {
        assert(module_docs@.take(module_docs@.len() as int) == module_docs@);
    }
    out
}

/// Formats the documentation as a single HTML page with sidebar navigation.
pub fn format_html(module_docs: &[ModuleDoc]) -> (res: String)
    requires
        module_docs@.len() > 0,
    ensures
        res@ == format_html_spec(module_docs@),
{
    let has_multiple = module_docs.len() > 1;
    let has_selectors = has_any_selectors(module_docs);

    let all_rows = if has_multiple {
        collect_all_symbols(module_docs)
    } else {
        VecDeque::new()
    };

    let sidebar_items = if has_multiple {
        let icon = svg_icon(template::GRID_SHAPES);
        let mut items = sidebar_link(true, "mod-all", icon.as_str(), "All", all_rows.len());
        let links = module_links_html(module_docs);
        items.append(links.as_str());
        items
    } else {
        let m = &module_docs[0];
        let name = escape_html(m.name.as_str());
        let icon = module_icon(m.name.as_str());
        sidebar_link(true, "mod-all", icon.as_str(), name.as_str(), m.symbols.len())
    };

    let selector_sidebar_items = if has_selectors {
        selector_links_html(module_docs)
    } else {
        String::new()
    };

    let mut pages = if has_multiple {
        let mut pages_html = build_module_page("mod-all", &all_rows, true);
        proof {
            lemma_same_rows_html(all_rows@, all_symbols(module_docs@));
        }
        let rest = module_pages_html(module_docs);
        pages_html.append(rest.as_str());
        pages_html
    } else {
        build_module_page("mod-all", &module_docs[0].symbols, true)
    };

    if has_selectors {
        let selector_pages_text = selector_pages_html(module_docs);
        pages.append(selector_pages_text.as_str());
    }

    let selector_section = if has_selectors {
        let mut section = String::from_str(template::SECTION_OPEN);
        section.append(selector_sidebar_items.as_str());
        section.append(template::SECTION_CLOSE);
        section
    } else {
        String::new()
    };

    let mut out = String::from_str(template::HTML_HEAD);
    out.append(sidebar_items.as_str());
    out.append(template::NAV_CLOSE);
    out.append(selector_section.as_str());
    out.append(template::CONTENT_OPEN);
    out.append(pages.as_str());
    out.append(template::HTML_TAIL);
    out
}

} // verus!
