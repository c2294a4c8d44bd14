//! The documented symbols of a loaded module and their table rows: every
//! public function becomes a row of name, description, parameters and example,
//! every selector a row of name and description, in the order of their names.
use crate::hir::sort_by_value;
use crate::text::{has_prefix, join, join_strings, lowercase, starts_with, strings_view, to_lowercase, trim, trim_ws};
use std::collections::VecDeque;
use vstd::prelude::*;
use vstd::string::StringExecFns;
use vstd::utf8::encode_utf8;

verus! {

/// What a symbol of a loaded module is, as far as the documentation needs it.
pub enum DocSymbolKind {
    /// A function definition, with the names of its parameters.
    Function(Vec<String>),
    /// A selector such as `.h1`.
    Selector,
    /// Any other symbol.
    Other,
}

/// A symbol of a loaded module: its name, what it is, and its doc comment lines.
pub struct DocSymbol {
    pub value: Option<String>,
    pub kind: DocSymbolKind,
    pub doc: Vec<String>,
}

/// What a symbol is, as a mathematical value.
pub enum SymbolKindView {
    Function(Seq<Seq<char>>),
    Selector,
    Other,
}

/// A symbol as a mathematical value: name, kind and doc comment lines.
pub struct SymbolView {
    pub value: Option<Seq<char>>,
    pub kind: SymbolKindView,
    pub doc: Seq<Seq<char>>,
}

impl View for DocSymbol {
    type V = SymbolView;

    open spec fn view(&self) -> SymbolView {
        SymbolView {
            value: match self.value {
                Some(v) => Some(v@),
                None => None,
            },
            kind: match self.kind {
                DocSymbolKind::Function(params) => SymbolKindView::Function(strings_view(params@)),
                DocSymbolKind::Selector => SymbolKindView::Selector,
                DocSymbolKind::Other => SymbolKindView::Other,
            },
            doc: strings_view(self.doc@),
        }
    }
}

/// The views of a sequence of symbols.
pub open spec fn symbols_view(v: Seq<DocSymbol>) -> Seq<SymbolView> {
    v.map_values(|s: DocSymbol| s@)
}

/// `a` precedes or equals `b` in the lexicographic order of byte strings.
pub open spec fn bytes_le(a: Seq<u8>, b: Seq<u8>) -> bool
    decreases a.len(),
{
    if a.len() == 0 {
        true
    } else if b.len() == 0 {
        false
    } else if a[0] != b[0] {
        a[0] < b[0]
    } else {
        bytes_le(a.drop_first(), b.drop_first())
    }
}

/// The order of symbol names: an absent name first, then names by the
/// lexicographic order of their UTF-8 bytes.
pub open spec fn value_le(a: Option<Seq<char>>, b: Option<Seq<char>>) -> bool {
    match (a, b) {
        (None, _) => true,
        (Some(_), None) => false,
        (Some(x), Some(y)) => bytes_le(encode_utf8(x), encode_utf8(y)),
    }
}

/// The symbols of `s` whose name is `k`, in their order in `s`.
pub open spec fn with_value(s: Seq<SymbolView>, k: Option<Seq<char>>) -> Seq<SymbolView> {
    s.filter(value_is(k))
}

/// The test that a symbol is named `k`.
pub open spec fn value_is(k: Option<Seq<char>>) -> spec_fn(SymbolView) -> bool {
    |x: SymbolView| x.value == k
}

/// `sorted` is `raw` stably sorted by name: ordered by `value_le`, and the symbols
/// of each name in their order in `raw`.
pub open spec fn is_sorted_by_value(sorted: Seq<SymbolView>, raw: Seq<SymbolView>) -> bool {
    &&& forall|i: int, j: int| 0 <= i < j < sorted.len() ==> value_le(sorted[i].value, sorted[j].value)
    &&& forall|k: Option<Seq<char>>| with_value(sorted, k) == with_value(raw, k)
}

proof fn lemma_bytes_le_reflexive(a: Seq<u8>)
    ensures
        bytes_le(a, a),
    decreases a.len(),
{
    if a.len() > 0 {
        lemma_bytes_le_reflexive(a.drop_first());
    }
}

proof fn lemma_bytes_le_antisymmetric(a: Seq<u8>, b: Seq<u8>)
    requires
        bytes_le(a, b),
        bytes_le(b, a),
    ensures
        a == b,
    decreases a.len(),
{
    if a.len() == 0 {
        assert(b.len() == 0);
        assert(a =~= b);
    } else {
        assert(b.len() > 0);
        assert(a[0] == b[0]);
        lemma_bytes_le_antisymmetric(a.drop_first(), b.drop_first());
        assert(a =~= seq![a[0]] + a.drop_first());
        assert(b =~= seq![b[0]] + b.drop_first());
    }
}

proof fn lemma_value_le_reflexive(a: Option<Seq<char>>)
    ensures
        value_le(a, a),
{
    if let Some(x) = a {
        lemma_bytes_le_reflexive(encode_utf8(x));
    }
}

proof fn lemma_value_le_antisymmetric(a: Option<Seq<char>>, b: Option<Seq<char>>)
    requires
        value_le(a, b),
        value_le(b, a),
    ensures
        a == b,
{
    if let (Some(x), Some(y)) = (a, b) {
        lemma_bytes_le_antisymmetric(encode_utf8(x), encode_utf8(y));
        vstd::utf8::encode_utf8_decode_utf8(x);
        vstd::utf8::encode_utf8_decode_utf8(y);
    }
}

/// Ordered by name, pairwise.
pub open spec fn ordered_by_value(s: Seq<SymbolView>) -> bool {
    forall|i: int, j: int| 0 <= i < j < s.len() ==> value_le(s[i].value, s[j].value)
}

proof fn lemma_with_value_push(s: Seq<SymbolView>, x: SymbolView, k: Option<Seq<char>>)
    ensures
        with_value(s.push(x), k) == if x.value == k {
            with_value(s, k).push(x)
        } else {
            with_value(s, k)
        },
{
    s.lemma_filter_push(x, value_is(k));
}

proof fn lemma_with_value_has(s: Seq<SymbolView>, i: int)
    requires
        0 <= i < s.len(),
    ensures
        with_value(s, s[i].value).len() > 0,
    decreases s.len(),
{
    let k = s[i].value;
    let p = s.drop_last();
    assert(s == p.push(s.last()));
    lemma_with_value_push(p, s.last(), k);
    if i < s.len() - 1 {
        assert(p[i] == s[i]);
        lemma_with_value_has(p, i);
    }
}

proof fn lemma_with_value_member(s: Seq<SymbolView>, k: Option<Seq<char>>, m: int)
    requires
        0 <= m < with_value(s, k).len(),
    ensures
        exists|i: int| 0 <= i < s.len() && s[i].value == k,
    decreases s.len(),
{
    let p = s.drop_last();
    assert(s == p.push(s.last()));
    lemma_with_value_push(p, s.last(), k);
    if s.last().value == k {
        assert(s[s.len() - 1].value == k);
    } else {
        lemma_with_value_member(p, k, m);
        let i = choose|i: int| 0 <= i < p.len() && p[i].value == k;
        assert(s[i] == p[i]);
    }
}

proof fn lemma_same_groups_unique(s1: Seq<SymbolView>, s2: Seq<SymbolView>)
    requires
        ordered_by_value(s1),
        ordered_by_value(s2),
        forall|k: Option<Seq<char>>| with_value(s1, k) == with_value(s2, k),
    ensures
        s1 == s2,
    decreases s1.len() + s2.len(),
{
    if s1.len() == 0 && s2.len() == 0 {
        assert(s1 =~= s2);
    } else if s1.len() == 0 {
        lemma_with_value_has(s2, s2.len() - 1);
        let k = s2[s2.len() - 1].value;
        assert(with_value(s1, k) == with_value(s2, k));
        assert(s1 =~= Seq::<SymbolView>::empty());
        assert(with_value(s1, k) =~= Seq::<SymbolView>::empty()) by {
            reveal(Seq::filter);
        }
    } else if s2.len() == 0 {
        lemma_with_value_has(s1, s1.len() - 1);
        let k = s1[s1.len() - 1].value;
        assert(with_value(s1, k) == with_value(s2, k));
        assert(s2 =~= Seq::<SymbolView>::empty());
        assert(with_value(s2, k) =~= Seq::<SymbolView>::empty()) by {
            reveal(Seq::filter);
        }
    } else {
        let x = s1.last();
        let y = s2.last();
        let p1 = s1.drop_last();
        let p2 = s2.drop_last();
        assert(s1 == p1.push(x));
        assert(s2 == p2.push(y));
        // The last name of each is the greatest, so both end with the same name.
        lemma_with_value_has(s2, s2.len() - 1);
        assert(with_value(s1, y.value) == with_value(s2, y.value));
        lemma_with_value_member(s1, y.value, 0);
        let j = choose|i: int| 0 <= i < s1.len() && s1[i].value == y.value;
        if j < s1.len() - 1 {
            assert(value_le(s1[j].value, s1[s1.len() - 1].value));
        } else {
            lemma_value_le_reflexive(y.value);
        }
        lemma_with_value_has(s1, s1.len() - 1);
        assert(with_value(s1, x.value) == with_value(s2, x.value));
        lemma_with_value_member(s2, x.value, 0);
        let j2 = choose|i: int| 0 <= i < s2.len() && s2[i].value == x.value;
        if j2 < s2.len() - 1 {
            assert(value_le(s2[j2].value, s2[s2.len() - 1].value));
        } else {
            lemma_value_le_reflexive(x.value);
        }
        lemma_value_le_antisymmetric(x.value, y.value);
        let kx = x.value;
        lemma_with_value_push(p1, x, kx);
        lemma_with_value_push(p2, y, kx);
        assert(with_value(s1, kx).last() == x);
        assert(with_value(s2, kx).last() == y);
        assert forall|k: Option<Seq<char>>| with_value(p1, k) == with_value(p2, k) by {
            lemma_with_value_push(p1, x, k);
            lemma_with_value_push(p2, y, k);
            assert(with_value(s1, k) == with_value(s2, k));
            if k == kx {
                assert(with_value(p1, k) == with_value(s1, k).drop_last());
                assert(with_value(p2, k) == with_value(s2, k).drop_last());
            }
        }
        assert(ordered_by_value(p1));
        assert(ordered_by_value(p2));
        lemma_same_groups_unique(p1, p2);
    }
}

/// Sorting by name leaves nothing open: two stable sorts of the same symbols by
/// name are the same sequence, so the rows extracted from a module depend on its
/// symbols alone.
pub proof fn lemma_sorted_by_value_unique(s1: Seq<SymbolView>, s2: Seq<SymbolView>, raw: Seq<SymbolView>)
    requires
        is_sorted_by_value(s1, raw),
        is_sorted_by_value(s2, raw),
    ensures
        s1 == s2,
{
    assert forall|k: Option<Seq<char>>| with_value(s1, k) == with_value(s2, k) by {
        assert(with_value(s1, k) == with_value(raw, k));
        assert(with_value(s2, k) == with_value(raw, k));
    }
    lemma_same_groups_unique(s1, s2);
}

/// A function whose name starts with `_`, which the documentation leaves out.
pub open spec fn is_internal(s: SymbolView) -> bool {
    &&& s.kind is Function
    &&& s.value matches Some(v) && has_prefix(v, "_"@)
}

/// Whether the doc comment line `text` marks deprecation: the line, trimmed and
/// lower-cased, is `deprecated` or begins with `deprecated:` or `deprecated `.
/// A line that only mentions the word does not count.
pub open spec fn is_deprecation_marker(text: Seq<char>) -> bool {
    let lower = lowercase(trim_ws(text));
    lower == "deprecated"@ || has_prefix(lower, "deprecated:"@) || has_prefix(lower, "deprecated "@)
}

/// Whether the doc comment line `text` marks deprecation.
pub fn deprecation_marker(text: &str) -> (res: bool)
    ensures
        res == is_deprecation_marker(text@),
{
    let trimmed = trim(text);
    let lower = to_lowercase(trimmed.as_str());
    let word = String::from_str("deprecated");
    lower == word || starts_with(lower.as_str(), "deprecated:") || starts_with(lower.as_str(), "deprecated ")
}

/// Some doc comment line of `s` marks it deprecated.
pub open spec fn is_deprecated(s: SymbolView) -> bool {
    exists|i: int| 0 <= i < s.doc.len() && is_deprecation_marker(#[trigger] s.doc[i])
}

/// A named function that is not internal gets one row, whose name is
/// `` ~~`v`~~ `` when some doc line, at any position, is a deprecation marker, and
/// `` `v` `` otherwise; so reordering the doc lines never changes the name.
pub proof fn lemma_struck_through_when_some_line_marks(s: SymbolView)
    requires
        s.kind is Function,
        s.value is Some,
        !has_prefix(s.value->0, "_"@),
    ensures
        function_rows(seq![s]).len() == 1,
        function_rows(seq![s])[0][0] == if exists|i: int| 0 <= i < s.doc.len() && #[trigger] is_deprecation_marker(s.doc[i]) {
            "~~`"@ + s.value->0 + "`~~"@
        } else {
            "`"@ + s.value->0 + "`"@
        },
{
    let v = s.value->0;
    let params = s.kind->Function_0;
    assert(seq![s].drop_last() =~= Seq::<SymbolView>::empty());
    assert(seq![s].last() == s);
    assert(!is_internal(s));
    assert(symbol_row_of(s) == Some(function_row(v, params, s.doc, is_deprecated(s))));
    assert(function_rows(seq![s]) == function_rows(Seq::<SymbolView>::empty()).push(
        function_row(v, params, s.doc, is_deprecated(s)),
    ));
    assert(function_rows(seq![s])[0][0] == function_name(v, is_deprecated(s)));
    assert("~~"@ + ("`"@ + v + "`"@) + "~~"@ =~= "~~`"@ + v + "`~~"@) by {
        reveal_strlit("~~");
        reveal_strlit("`");
        reveal_strlit("~~`");
        reveal_strlit("`~~");
    }
}

/// A symbol that is not a named function, or whose name begins with `_`, gets
/// no function row.
pub proof fn lemma_no_row_for_others(s: SymbolView)
    requires
        !(s.kind is Function) || s.value is None || has_prefix(s.value->0, "_"@),
    ensures
        function_rows(seq![s]).len() == 0,
{
    assert(seq![s].drop_last() =~= Seq::<SymbolView>::empty());
    assert(seq![s].last() == s);
    if s.kind is Function && s.value is Some {
        assert(is_internal(s));
    }
    assert(symbol_row_of(s) is None);
    assert(function_rows(seq![s]) == function_rows(Seq::<SymbolView>::empty()));
}

/// The function rows of two lists of symbols one after the other are the rows
/// of the first followed by the rows of the second: each symbol's row depends on
/// that symbol alone, and rows keep the order of their symbols.
pub proof fn lemma_function_rows_concat(a: Seq<SymbolView>, b: Seq<SymbolView>)
    ensures
        function_rows(a + b) == function_rows(a) + function_rows(b),
    decreases b.len(),
{
    if b.len() == 0 {
        assert(a + b =~= a);
        assert(function_rows(a) + function_rows(b) =~= function_rows(a));
    } else {
        lemma_function_rows_concat(a, b.drop_last());
        assert((a + b).drop_last() =~= a + b.drop_last());
        assert((a + b).last() == b.last());
        assert(function_rows(a + b) =~= function_rows(a) + function_rows(b));
    }
}

/// The selector rows of two lists of symbols one after the other are the rows
/// of the first followed by the rows of the second.
pub proof fn lemma_selector_rows_concat(a: Seq<SymbolView>, b: Seq<SymbolView>)
    ensures
        selector_rows(a + b) == selector_rows(a) + selector_rows(b),
    decreases b.len(),
{
    if b.len() == 0 {
        assert(a + b =~= a);
        assert(selector_rows(a) + selector_rows(b) =~= selector_rows(a));
    } else {
        lemma_selector_rows_concat(a, b.drop_last());
        assert((a + b).drop_last() =~= a + b.drop_last());
        assert((a + b).last() == b.last());
        assert(selector_rows(a + b) =~= selector_rows(a) + selector_rows(b));
    }
}

/// `v` between backticks.
pub open spec fn quoted(v: Seq<char>) -> Seq<char> {
    "`"@ + v + "`"@
}

/// The rendered name of a function: quoted, and struck through when deprecated.
pub open spec fn function_name(v: Seq<char>, deprecated: bool) -> Seq<char> {
    if deprecated {
        "~~"@ + quoted(v) + "~~"@
    } else {
        quoted(v)
    }
}

/// The parameter names, each quoted.
pub open spec fn quoted_all(params: Seq<Seq<char>>) -> Seq<Seq<char>>
    decreases params.len(),
{
    if params.len() == 0 {
        Seq::empty()
    } else {
        quoted_all(params.drop_last()).push(quoted(params.last()))
    }
}

/// The row of a documented function: rendered name, description (the doc lines
/// joined by newlines), quoted parameters joined by `, `, and an example call.
pub open spec fn function_row(v: Seq<char>, params: Seq<Seq<char>>, doc: Seq<Seq<char>>, deprecated: bool) -> Seq<Seq<char>> {
    seq![
        function_name(v, deprecated),
        join(doc, "\n"@),
        join(quoted_all(params), ", "@),
        v + "("@ + join(params, ", "@) + ")"@,
    ]
}

/// The row of `s` when it is a named function that is not internal.
pub open spec fn symbol_row_of(s: SymbolView) -> Option<Seq<Seq<char>>> {
    match s.kind {
        SymbolKindView::Function(params) => match s.value {
            Some(v) => if is_internal(s) {
                None
            } else {
                Some(function_row(v, params, s.doc, is_deprecated(s)))
            },
            None => None,
        },
        _ => None,
    }
}

/// The row of `s` when it is a named selector: quoted name and description.
pub open spec fn selector_row_of(s: SymbolView) -> Option<Seq<Seq<char>>> {
    match s.kind {
        SymbolKindView::Selector => match s.value {
            Some(v) => Some(seq![quoted(v), join(s.doc, "\n"@)]),
            None => None,
        },
        _ => None,
    }
}

/// The function rows of `syms`, in order.
pub open spec fn function_rows(syms: Seq<SymbolView>) -> Seq<Seq<Seq<char>>>
    decreases syms.len(),
{
    if syms.len() == 0 {
        Seq::empty()
    } else {
        match symbol_row_of(syms.last()) {
            Some(r) => function_rows(syms.drop_last()).push(r),
            None => function_rows(syms.drop_last()),
        }
    }
}

/// The selector rows of `syms`, in order.
pub open spec fn selector_rows(syms: Seq<SymbolView>) -> Seq<Seq<Seq<char>>>
    decreases syms.len(),
{
    if syms.len() == 0 {
        Seq::empty()
    } else {
        match selector_row_of(syms.last()) {
            Some(r) => selector_rows(syms.drop_last()).push(r),
            None => selector_rows(syms.drop_last()),
        }
    }
}

/// The texts of a function row.
pub open spec fn row4_view(r: [String; 4]) -> Seq<Seq<char>> {
    seq![r[0]@, r[1]@, r[2]@, r[3]@]
}

/// The texts of a selector row.
pub open spec fn row2_view(r: [String; 2]) -> Seq<Seq<char>> {
    seq![r[0]@, r[1]@]
}

/// The texts of function rows.
pub open spec fn rows4_view(rows: Seq<[String; 4]>) -> Seq<Seq<Seq<char>>> {
    rows.map_values(|r: [String; 4]| row4_view(r))
}

/// The texts of selector rows.
pub open spec fn rows2_view(rows: Seq<[String; 2]>) -> Seq<Seq<Seq<char>>> {
    rows.map_values(|r: [String; 2]| row2_view(r))
}

/// Whether `s` is a function whose name starts with `_`.
fn internal(s: &DocSymbol) -> (res: bool)
    ensures
        res == is_internal(s@),
{
    match (&s.kind, &s.value) {
        (DocSymbolKind::Function(_), Some(v)) => starts_with(v.as_str(), "_"),
        _ => false,
    }
}

/// Whether some doc comment line of `s` marks it deprecated.
fn deprecated(s: &DocSymbol) -> (res: bool)
    ensures
        res == is_deprecated(s@),
{
    let mut i: usize = 0;
    while i < s.doc.len()
        invariant
            i <= s.doc@.len(),
            forall|k: int| 0 <= k < i ==> !is_deprecation_marker(#[trigger] s@.doc[k]),
        decreases s.doc@.len() - i,
    {
        if deprecation_marker(s.doc[i].as_str()) {
            proof {
                assert(s@.doc[i as int] == s.doc@[i as int]@);
            }
            return true;
        }
        i = i + 1;
    }
    false
}

/// `v` between backticks.
fn quote(v: &str) -> (res: String)
    ensures
        res@ == quoted(v@),
{
    let mut out = String::from_str("`");
    out.append(v);
    out.append("`");
    out
}

/// The row of a documented function.
fn function_row_of(v: &String, params: &Vec<String>, doc: &Vec<String>, is_dep: bool) -> (res: [String; 4])
    ensures
        row4_view(res) == function_row(v@, strings_view(params@), strings_view(doc@), is_dep),
{
    let name = if is_dep {
        let mut n = String::from_str("~~");
        let q = quote(v.as_str());
        n.append(q.as_str());
        n.append("~~");
        n
    } else {
        quote(v.as_str())
    };
    let description = join_strings(doc, "\n");
    let mut quoted_params: Vec<String> = Vec::new();
    let mut i: usize = 0;
    while i < params.len()
        invariant
            i <= params@.len(),
            strings_view(quoted_params@) == quoted_all(strings_view(params@.take(i as int))),
        decreases params@.len() - i,
    {
        let q = quote(params[i].as_str());
        proof {
            assert(strings_view(params@.take(i + 1)).drop_last() == strings_view(params@.take(i as int)));
            assert(strings_view(quoted_params@.push(q)) == strings_view(quoted_params@).push(q@));
        }
        quoted_params.push(q);
        i = i + 1;
    }
    proof {
        assert(params@.take(params@.len() as int) == params@);
    }
    let args = join_strings(&quoted_params, ", ");
    let mut example = v.clone();
    example.append("(");
    let names = join_strings(params, ", ");
    example.append(names.as_str());
    example.append(")");
    let row = [name, description, args, example];
    proof {
        assert(row4_view(row) =~= function_row(v@, strings_view(params@), strings_view(doc@), is_dep));
    }
    row
}

proof fn lemma_rows4_push(rows: Seq<[String; 4]>, r: [String; 4])
    ensures
        rows4_view(rows.push(r)) == rows4_view(rows).push(row4_view(r)),
{
    assert(rows4_view(rows.push(r)) =~= rows4_view(rows).push(row4_view(r)));
}

proof fn lemma_rows2_push(rows: Seq<[String; 2]>, r: [String; 2])
    ensures
        rows2_view(rows.push(r)) == rows2_view(rows).push(row2_view(r)),
{
    assert(rows2_view(rows.push(r)) =~= rows2_view(rows).push(row2_view(r)));
}

/// The function rows of symbols already in name order.
pub fn function_rows_of(sorted: &Vec<DocSymbol>) -> (res: VecDeque<[String; 4]>)
    ensures
        rows4_view(res@) == function_rows(symbols_view(sorted@)),
{
    let mut out: VecDeque<[String; 4]> = VecDeque::new();
    let mut i: usize = 0;
    while i < sorted.len()
        invariant
            i <= sorted@.len(),
            rows4_view(out@) == function_rows(symbols_view(sorted@.take(i as int))),
        decreases sorted@.len() - i,
    {
        let s = &sorted[i];
        proof {
            let prev = symbols_view(sorted@.take(i as int));
            assert(symbols_view(sorted@.take(i + 1)) == prev.push(s@));
            assert(prev.push(s@).drop_last() == prev);
        }
        match (&s.kind, &s.value) {
            (DocSymbolKind::Function(params), Some(v)) => {
                if !internal(s) {
                    let is_dep = deprecated(s);
                    let row = function_row_of(v, params, &s.doc, is_dep);
                    proof {
                        lemma_rows4_push(out@, row);
                    }
                    out.push_back(row);
                }
            },
            _ => {},
        }
        i = i + 1;
    }
    proof {
        assert(sorted@.take(sorted@.len() as int) == sorted@);
    }
    out
}

/// The selector rows of symbols already in name order.
pub fn selector_rows_of(sorted: &Vec<DocSymbol>) -> (res: VecDeque<[String; 2]>)
    ensures
        rows2_view(res@) == selector_rows(symbols_view(sorted@)),
{
    let mut out: VecDeque<[String; 2]> = VecDeque::new();
    let mut i: usize = 0;
    while i < sorted.len()
        invariant
            i <= sorted@.len(),
            rows2_view(out@) == selector_rows(symbols_view(sorted@.take(i as int))),
        decreases sorted@.len() - i,
    {
        let s = &sorted[i];
        proof {
            let prev = symbols_view(sorted@.take(i as int));
            assert(symbols_view(sorted@.take(i + 1)) == prev.push(s@));
            assert(prev.push(s@).drop_last() == prev);
        }
        match (&s.kind, &s.value) {
            (DocSymbolKind::Selector, Some(v)) => {
                let name = quote(v.as_str());
                let description = join_strings(&s.doc, "\n");
                let row = [name, description];
                proof {
                    assert(row2_view(row) =~= seq![quoted(v@), join(strings_view(s.doc@), "\n"@)]);
                    lemma_rows2_push(out@, row);
                }
                out.push_back(row);
            },
            _ => {},
        }
        i = i + 1;
    }
    proof {
        assert(sorted@.take(sorted@.len() as int) == sorted@);
    }
    out
}

/// A copy of a list of strings.
fn copy_strings(v: &Vec<String>) -> (res: Vec<String>)
    ensures
        strings_view(res@) == strings_view(v@),
{
    let mut out: Vec<String> = Vec::new();
    let mut i: usize = 0;
    while i < v.len()
        invariant
            i <= v@.len(),
            strings_view(out@) == strings_view(v@.take(i as int)),
        decreases v@.len() - i,
    {
        let c = v[i].clone();
        proof {
            assert(strings_view(out@.push(c)) == strings_view(out@).push(c@));
            assert(strings_view(v@.take(i + 1)) == strings_view(v@.take(i as int)).push(v@[i as int]@));
        }
        out.push(c);
        i = i + 1;
    }
    proof {
        assert(v@.take(v@.len() as int) == v@);
    }
    out
}

/// A copy of a symbol.
fn copy_symbol(s: &DocSymbol) -> (res: DocSymbol)
    ensures
        res@ == s@,
{
    let value = match &s.value {
        Some(v) => Some(v.clone()),
        None => None,
    };
    let kind = match &s.kind {
        DocSymbolKind::Function(params) => DocSymbolKind::Function(copy_strings(params)),
        DocSymbolKind::Selector => DocSymbolKind::Selector,
        DocSymbolKind::Other => DocSymbolKind::Other,
    };
    DocSymbol { value, kind, doc: copy_strings(&s.doc) }
}

/// A copy of a list of symbols.
fn copy_symbols(v: &Vec<DocSymbol>) -> (res: Vec<DocSymbol>)
    ensures
        symbols_view(res@) == symbols_view(v@),
{
    let mut out: Vec<DocSymbol> = Vec::new();
    let mut i: usize = 0;
    while i < v.len()
        invariant
            i <= v@.len(),
            symbols_view(out@) == symbols_view(v@.take(i as int)),
        decreases v@.len() - i,
    {
        let c = copy_symbol(&v[i]);
        proof {
            assert(symbols_view(out@.push(c)) == symbols_view(out@).push(c@));
            assert(symbols_view(v@.take(i + 1)) == symbols_view(v@.take(i as int)).push(v@[i as int]@));
        }
        out.push(c);
        i = i + 1;
    }
    proof {
        assert(v@.take(v@.len() as int) == v@);
    }
    out
}

/// Extracts the function rows of a module's symbols, in the order of their names.
pub fn extract_symbols(raw: &Vec<DocSymbol>) -> (res: VecDeque<[String; 4]>)
    ensures
        exists|sorted: Seq<SymbolView>|
            is_sorted_by_value(sorted, symbols_view(raw@)) && rows4_view(res@) == function_rows(sorted),
{
    let sorted = sort_by_value(copy_symbols(raw));
    function_rows_of(&sorted)
}

/// Extracts the selector rows of a module's symbols, in the order of their names.
pub fn extract_selectors(raw: &Vec<DocSymbol>) -> (res: VecDeque<[String; 2]>)
    ensures
        exists|sorted: Seq<SymbolView>|
            is_sorted_by_value(sorted, symbols_view(raw@)) && rows2_view(res@) == selector_rows(sorted),
{
    let sorted = sort_by_value(copy_symbols(raw));
    selector_rows_of(&sorted)
}

} // verus!
