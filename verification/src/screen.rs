//! What the browser screen shows, apart from how it is drawn: the titles of the
//! two tabs, the labels of the module list, the rows of the item list, the detail
//! of the highlighted entry and the help line.
use crate::browser::{App, ContentTab, EntryView, InputMode};
use crate::detail::{
    concat, detail_label, detail_spec, entry_deprecated, entry_detail_lines, is_deprecated, label_of, line_view,
    lines_view, segment, segment_view, Segment, SpanStyle,
};
use crate::text::{decimal, decimal_string, strings_view};
use vstd::prelude::*;
use vstd::string::StringExecFns;

verus! {

/// The prompt in front of the search query.
pub const SEARCH_PROMPT: &'static str = " Search: ";

/// The cursor after the search query.
pub const SEARCH_CURSOR: &'static str = "_";

/// The keys that end the search.
pub const SEARCH_HINTS: &'static str = "  Esc: cancel  Enter: confirm";

/// The keys of the browser over several modules.
pub const MULTI_MODULE_HINTS: &'static str = " /: search  Tab: switch  h/l ←/→: pane  j/k ↑/↓: navigate  Enter: select  q: quit";

/// The keys of the browser over one module.
pub const SINGLE_MODULE_HINTS: &'static str = " /: search  Tab: switch  j/k ↑/↓: navigate  PgUp/PgDn: page  q: quit";

/// `title (count) ` with a space in front.
pub open spec fn counted_title(title: Seq<char>, count: nat) -> Seq<char> {
    " "@ + title + " ("@ + decimal(count) + ") "@
}

/// The titles of the tabs: the functions and the selectors shown, with their
/// numbers.
pub open spec fn tab_titles_spec(app: App) -> Seq<Seq<char>> {
    seq![counted_title("Functions"@, app.filtered_fn@.len()), counted_title("Selectors"@, app.filtered_sel@.len())]
}

/// The label of a module: its name and its number of functions.
pub open spec fn module_label(name: Seq<char>, count: nat) -> Seq<char> {
    name + " ("@ + decimal(count) + ")"@
}

/// The labels of the module list.
pub open spec fn module_labels_spec(app: App) -> Seq<Seq<char>> {
    Seq::new(
        app.module_names@.len(),
        |i: int| module_label(app.module_names@[i]@, app.module_functions@[i]@.len()),
    )
}

/// The row of a function in the item list: its name, marked when deprecated.
pub open spec fn function_item(e: EntryView) -> (SpanStyle, Seq<char>) {
    (
        if entry_deprecated(e) {
            SpanStyle::Deprecated
        } else {
            SpanStyle::Plain
        },
        e.name,
    )
}

/// The rows of the item list: the names of the entries shown in the current tab.
pub open spec fn item_rows_spec(app: App) -> Seq<(SpanStyle, Seq<char>)> {
    match app.content_tab {
        ContentTab::Functions => Seq::new(
            app.filtered_fn@.len(),
            |k: int| function_item(app.fns()[app.filtered_fn@[k] as int]),
        ),
        ContentTab::Selectors => Seq::new(
            app.filtered_sel@.len(),
            |k: int| (SpanStyle::Plain, app.sels()[app.filtered_sel@[k] as int].name),
        ),
    }
}

/// The highlighted entry of the current tab, if any.
pub open spec fn selected_entry(app: App) -> Option<EntryView> {
    match app.item_selection {
        Some(k) => match app.content_tab {
            ContentTab::Functions => if k < app.filtered_fn@.len() {
                Some(app.fns()[app.filtered_fn@[k as int] as int])
            } else {
                None
            },
            ContentTab::Selectors => if k < app.filtered_sel@.len() {
                Some(app.sels()[app.filtered_sel@[k as int] as int])
            } else {
                None
            },
        },
        None => None,
    }
}

/// The help line: the query being typed while searching, otherwise the keys.
pub open spec fn help_spec(app: App) -> Seq<(SpanStyle, Seq<char>)> {
    if app.input_mode == InputMode::Searching {
        seq![
            (SpanStyle::Label, SEARCH_PROMPT@),
            (SpanStyle::Query, app.search_query@),
            (SpanStyle::Cursor, SEARCH_CURSOR@),
            (SpanStyle::Hint, SEARCH_HINTS@),
        ]
    } else if app.multi_module {
        seq![(SpanStyle::Hint, MULTI_MODULE_HINTS@)]
    } else {
        seq![(SpanStyle::Hint, SINGLE_MODULE_HINTS@)]
    }
}

/// `title (count) ` with a space in front.
fn counted(title: &str, count: usize) -> (res: String)
    ensures
        res@ == counted_title(title@, count as nat),
{
    let mut out = concat(" ", title);
    out.append(" (");
    let n = decimal_string(count);
    out.append(n.as_str());
    out.append(") ");
    out
}

/// The titles of the tabs.
pub fn tab_titles(app: &App) -> (res: Vec<String>)
    ensures
        strings_view(res@) == tab_titles_spec(*app),
{
    let mut out: Vec<String> = Vec::new();
    out.push(counted("Functions", app.fn_count()));
    out.push(counted("Selectors", app.sel_count()));
    proof {
        assert(strings_view(out@) =~= tab_titles_spec(*app));
    }
    out
}

/// The labels of the module list.
pub fn module_labels(app: &App) -> (res: Vec<String>)
    requires
        app.shape_ok(),
    ensures
        strings_view(res@) == module_labels_spec(*app),
{
    let mut out: Vec<String> = Vec::new();
    let mut i: usize = 0;
    while i < app.module_names.len()
        invariant
            app.shape_ok(),
            i <= app.module_names@.len(),
            strings_view(out@) =~= module_labels_spec(*app).take(i as int),
        decreases app.module_names@.len() - i,
    {
        let mut label = app.module_names[i].clone();
        label.append(" (");
        let n = decimal_string(app.module_functions[i].len());
        label.append(n.as_str());
        label.append(")");
        proof {
            assert(strings_view(out@.push(label)) =~= strings_view(out@).push(label@));
            assert(module_labels_spec(*app).take(i + 1) =~= module_labels_spec(*app).take(i as int).push(label@));
        }
        out.push(label);
        i = i + 1;
    }
    out
}

/// The rows of the item list, one segment each.
pub fn item_rows(app: &App) -> (res: Vec<Segment>)
    requires
        app.wf(),
    ensures
        line_view(res@) == item_rows_spec(*app),
{
    let mut out: Vec<Segment> = Vec::new();
    match app.content_tab {
        ContentTab::Functions => {
            let fns = app.current_fns();
            let mut k: usize = 0;
            while k < app.filtered_fn.len()
                invariant
                    app.wf(),
                    app.content_tab == ContentTab::Functions,
                    crate::browser::entries_view(fns@) == app.fns(),
                    k <= app.filtered_fn@.len(),
                    line_view(out@) =~= item_rows_spec(*app).take(k as int),
                decreases app.filtered_fn@.len() - k,
            {
                let pos = app.filtered_fn[k];
                proof {
                    crate::browser::lemma_filter_indices_bound(app.fns(), app.query(), k as int);
                }
                let e = &fns[pos];
                let style = if is_deprecated(e) { SpanStyle::Deprecated } else { SpanStyle::Plain };
                let s = segment(style, e.name.clone());
                proof {
                    assert(e@ == app.fns()[pos as int]);
                    assert(line_view(out@.push(s)) =~= line_view(out@).push(segment_view(s)));
                    assert(item_rows_spec(*app).take(k + 1) =~= item_rows_spec(*app).take(k as int).push(segment_view(s)));
                }
                out.push(s);
                k = k + 1;
            }
        },
        ContentTab::Selectors => {
            let sels = app.current_sels();
            let mut k: usize = 0;
            while k < app.filtered_sel.len()
                invariant
                    app.wf(),
                    app.content_tab == ContentTab::Selectors,
                    crate::browser::entries_view(sels@) == app.sels(),
                    k <= app.filtered_sel@.len(),
                    line_view(out@) =~= item_rows_spec(*app).take(k as int),
                decreases app.filtered_sel@.len() - k,
            {
                let pos = app.filtered_sel[k];
                proof {
                    crate::browser::lemma_filter_indices_bound(app.sels(), app.query(), k as int);
                }
                let e = &sels[pos];
                let s = segment(SpanStyle::Plain, e.name.clone());
                proof {
                    assert(e@ == app.sels()[pos as int]);
                    assert(line_view(out@.push(s)) =~= line_view(out@).push(segment_view(s)));
                    assert(item_rows_spec(*app).take(k + 1) =~= item_rows_spec(*app).take(k as int).push(segment_view(s)));
                }
                out.push(s);
                k = k + 1;
            }
        },
    }
    out
}

/// The detail of the highlighted entry, under the label of its kind; `None`
/// when no entry is highlighted.
pub fn selected_detail(app: &App) -> (res: Option<Vec<Vec<Segment>>>)
    requires
        app.wf(),
    ensures
        match res {
            Some(ls) => selected_entry(*app) matches Some(e) && lines_view(ls@) == detail_spec(e, label_of(e.kind)),
            None => selected_entry(*app) is None,
        },
{
    let entry = match app.content_tab {
        ContentTab::Functions => app.current_fn_entry(),
        ContentTab::Selectors => app.current_sel_entry(),
    };
    match entry {
        Some(e) => Some(entry_detail_lines(e, detail_label(e))),
        None => None,
    }
}

/// The help line.
pub fn help_line(app: &App) -> (res: Vec<Segment>)
    ensures
        line_view(res@) == help_spec(*app),
{
    let mut out: Vec<Segment> = Vec::new();
    if app.input_mode == InputMode::Searching {
        out.push(segment(SpanStyle::Label, String::from_str(SEARCH_PROMPT)));
        out.push(segment(SpanStyle::Query, app.search_query.clone()));
        out.push(segment(SpanStyle::Cursor, String::from_str(SEARCH_CURSOR)));
        out.push(segment(SpanStyle::Hint, String::from_str(SEARCH_HINTS)));
    } else if app.multi_module {
        out.push(segment(SpanStyle::Hint, String::from_str(MULTI_MODULE_HINTS)));
    } else {
        out.push(segment(SpanStyle::Hint, String::from_str(SINGLE_MODULE_HINTS)));
    }
    proof {
        assert(line_view(out@) =~= help_spec(*app));
    }
    out
}

} // verus!
