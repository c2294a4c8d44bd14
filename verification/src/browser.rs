//! The state of the interactive documentation browser: a list of modules (the
//! first, "All", gathering every module's entries), a filterable list of the
//! selected module's functions or selectors, and the keys that move between them.
//! Drawing the state on a terminal is left to the caller.
use crate::text::{chars_of, contains_seq, lowercase, occurs_at, occurs_at_index, pop_char, push_char, to_lowercase};
use vstd::prelude::*;
use vstd::string::StringExecFns;

verus! {

/// A parameter of a documented function.
pub struct ParamEntry {
    pub name: String,
    pub param_type: String,
}

/// An example of a documented function with its expected output.
pub struct ExampleEntry {
    pub code: String,
    pub expected: String,
}

/// The documentation of one function or selector.
pub struct DocEntry {
    pub name: String,
    /// `"function"` or `"selector"`.
    pub kind: String,
    pub params: Vec<ParamEntry>,
    pub returns: String,
    pub description: String,
    pub examples: Vec<ExampleEntry>,
    /// The feature needed to use the entry, if any.
    pub capability: Option<String>,
    /// The standard module that defines the entry, if any.
    pub related_module: Option<String>,
}

/// A module with its documented functions and selectors.
pub struct ModuleEntry {
    pub name: String,
    pub functions: Vec<DocEntry>,
    pub selectors: Vec<DocEntry>,
}

/// A documentation entry as a mathematical value.
pub struct EntryView {
    pub name: Seq<char>,
    pub kind: Seq<char>,
    pub params: Seq<(Seq<char>, Seq<char>)>,
    pub returns: Seq<char>,
    pub description: Seq<char>,
    pub examples: Seq<(Seq<char>, Seq<char>)>,
    pub capability: Option<Seq<char>>,
    pub related_module: Option<Seq<char>>,
}

/// The view of an optional string.
pub open spec fn opt_view(o: Option<String>) -> Option<Seq<char>> {
    match o {
        Some(s) => Some(s@),
        None => None,
    }
}

/// A parameter as a pair of its name and its type.
pub open spec fn param_view(p: ParamEntry) -> (Seq<char>, Seq<char>) {
    (p.name@, p.param_type@)
}

/// The views of a list of parameters.
pub open spec fn params_view(v: Seq<ParamEntry>) -> Seq<(Seq<char>, Seq<char>)> {
    v.map_values(|p: ParamEntry| param_view(p))
}

/// An example as a pair of its code and its expected output.
pub open spec fn example_view(x: ExampleEntry) -> (Seq<char>, Seq<char>) {
    (x.code@, x.expected@)
}

/// The views of a list of examples.
pub open spec fn examples_view(v: Seq<ExampleEntry>) -> Seq<(Seq<char>, Seq<char>)> {
    v.map_values(|x: ExampleEntry| example_view(x))
}

impl View for DocEntry {
    type V = EntryView;

    open spec fn view(&self) -> EntryView {
        EntryView {
            name: self.name@,
            kind: self.kind@,
            params: params_view(self.params@),
            returns: self.returns@,
            description: self.description@,
            examples: examples_view(self.examples@),
            capability: opt_view(self.capability),
            related_module: opt_view(self.related_module),
        }
    }
}

/// The views of a sequence of entries.
pub open spec fn entries_view(v: Seq<DocEntry>) -> Seq<EntryView> {
    v.map_values(|e: DocEntry| e@)
}

/// Whether `needle` occurs in `hay` (`str::contains`).
pub fn contains(hay: &str, needle: &str) -> (res: bool)
    ensures
        res == contains_seq(hay@, needle@),
{
    let h = chars_of(hay);
    let n = chars_of(needle);
    if n.len() > h.len() {
        return false;
    }
    let last = h.len() - n.len();
    let mut i: usize = 0;
    loop
        invariant
            n.len() <= h.len(),
            last == h.len() - n.len(),
            i <= last,
            h@ == hay@,
            n@ == needle@,
            forall|k: int| 0 <= k < i ==> !occurs_at(h@, n@, k),
        decreases last - i,
    {
        if occurs_at_index(&h, &n, i) {
            return true;
        }
        if i == last {
            return false;
        }
        i = i + 1;
    }
}

/// An entry is shown for the lower-cased query `q`: the query is empty, or it
/// occurs in the lower-cased name or description.
pub open spec fn entry_matches(q: Seq<char>, e: EntryView) -> bool {
    q.len() == 0 || contains_seq(lowercase(e.name), q) || contains_seq(lowercase(e.description), q)
}

/// The positions of the entries shown for the lower-cased query `q`, in order.
pub open spec fn filter_indices(es: Seq<EntryView>, q: Seq<char>) -> Seq<usize>
    decreases es.len(),
{
    if es.len() == 0 {
        Seq::empty()
    } else if entry_matches(q, es.last()) {
        filter_indices(es.drop_last(), q).push((es.len() - 1) as usize)
    } else {
        filter_indices(es.drop_last(), q)
    }
}

/// `(cur + delta)` wrapped around a list of `count` items.
pub open spec fn wrap(cur: int, delta: int, count: int) -> int {
    (cur + delta) % count
}

/// The positions `0, 1, ..., n - 1`.
pub open spec fn positions(n: nat) -> Seq<usize> {
    Seq::new(n, |i: int| i as usize)
}

/// Which list the item pane shows.
#[derive(Clone, Copy, Debug, PartialEq, Eq, Structural)]
pub enum ContentTab {
    Functions,
    Selectors,
}

/// Which pane receives the navigation keys.
#[derive(Clone, Copy, Debug, PartialEq, Eq, Structural)]
pub enum FocusedPane {
    Modules,
    Items,
}

/// Whether keys navigate or edit the search query.
#[derive(Clone, Copy, Debug, PartialEq, Eq, Structural)]
pub enum InputMode {
    Normal,
    Searching,
}

/// A key press, as far as the browser tells keys apart.
#[derive(Clone, Copy, Debug, PartialEq, Eq, Structural)]
pub enum KeyInput {
    Esc,
    Enter,
    Backspace,
    Tab,
    Left,
    Right,
    Up,
    Down,
    PageUp,
    PageDown,
    Char(char),
    Other,
}

/// What the caller does after a key.
#[derive(Clone, Copy, Debug, PartialEq, Eq, Structural)]
pub enum KeyOutcome {
    Continue,
    Quit,
}

/// The browser state.
pub struct App {
    /// `module_names[0]` is "All"; the others are the modules, in order.
    pub module_names: Vec<String>,
    /// The functions of each module; the first list gathers all modules' functions.
    pub module_functions: Vec<Vec<DocEntry>>,
    /// The selectors of each module; the first list gathers all modules' selectors.
    pub module_selectors: Vec<Vec<DocEntry>>,
    pub selected_module: usize,
    /// The highlighted row of the module list.
    pub module_selection: Option<usize>,
    pub content_tab: ContentTab,
    /// Positions in the selected module's functions of the entries shown.
    pub filtered_fn: Vec<usize>,
    /// Positions in the selected module's selectors of the entries shown.
    pub filtered_sel: Vec<usize>,
    /// The highlighted row of the item list.
    pub item_selection: Option<usize>,
    pub focused: FocusedPane,
    pub input_mode: InputMode,
    pub search_query: String,
    /// More than one module was given.
    pub multi_module: bool,
}

impl App {
    /// The functions of the selected module.
    pub open spec fn fns(self) -> Seq<EntryView> {
        entries_view(self.module_functions@[self.selected_module as int]@)
    }

    /// The selectors of the selected module.
    pub open spec fn sels(self) -> Seq<EntryView> {
        entries_view(self.module_selectors@[self.selected_module as int]@)
    }

    /// The lower-cased search query.
    pub open spec fn query(self) -> Seq<char> {
        lowercase(self.search_query@)
    }

    /// The number of rows of the item list.
    pub open spec fn tab_count(self) -> nat {
        match self.content_tab {
            ContentTab::Functions => self.filtered_fn@.len(),
            ContentTab::Selectors => self.filtered_sel@.len(),
        }
    }

    /// The item selection as freshly set: the first row, or none when the list is empty.
    pub open spec fn selection_reset(self) -> bool {
        self.item_selection == if self.tab_count() == 0 {
            None::<usize>
        } else {
            Some(0usize)
        }
    }

    /// The modules and the selected module are consistent.
    pub open spec fn shape_ok(self) -> bool {
        &&& self.module_names@.len() > 0
        &&& self.module_functions@.len() == self.module_names@.len()
        &&& self.module_selectors@.len() == self.module_names@.len()
        &&& self.selected_module < self.module_names@.len()
        &&& self.module_selection == Some(self.selected_module)
        &&& self.multi_module == (self.module_names@.len() > 2)
        &&& !self.multi_module ==> self.focused == FocusedPane::Items
    }

    /// The browser invariant: consistent modules, item lists filtered by the current
    /// query, and an item selection within the shown list (none exactly when it is empty).
    pub open spec fn wf(self) -> bool {
        &&& self.shape_ok()
        &&& self.filtered_fn@ == filter_indices(self.fns(), self.query())
        &&& self.filtered_sel@ == filter_indices(self.sels(), self.query())
        &&& (self.item_selection is None <==> self.tab_count() == 0)
        &&& (self.item_selection matches Some(k) ==> k < self.tab_count())
    }

    /// `b` is `a` with the item selection moved by `delta`, wrapping around.
    pub open spec fn item_moved(a: App, b: App, delta: int) -> bool {
        b == (App {
            item_selection: if a.tab_count() == 0 {
                a.item_selection
            } else {
                Some(
                    wrap(
                        match a.item_selection {
                            Some(k) => k as int,
                            None => 0,
                        },
                        delta,
                        a.tab_count() as int,
                    ) as usize,
                )
            },
            ..a
        })
    }

    /// `b` is `a` with the module `idx` selected and the lists filtered anew.
    pub open spec fn module_selected(a: App, b: App, idx: int) -> bool {
        &&& b == (App {
            selected_module: idx as usize,
            module_selection: Some(idx as usize),
            filtered_fn: b.filtered_fn,
            filtered_sel: b.filtered_sel,
            item_selection: b.item_selection,
            ..a
        })
        &&& b.selection_reset()
    }

    /// `b` is `a` with the module selection moved by `delta`, wrapping around.
    pub open spec fn module_moved(a: App, b: App, delta: int) -> bool {
        App::module_selected(a, b, wrap(a.selected_module as int, delta, a.module_names@.len() as int))
    }

    /// `b` is `a` showing the other tab, with a fresh item selection.
    pub open spec fn tab_switched(a: App, b: App) -> bool {
        &&& b == (App {
            content_tab: match a.content_tab {
                ContentTab::Functions => ContentTab::Selectors,
                ContentTab::Selectors => ContentTab::Functions,
            },
            item_selection: b.item_selection,
            ..a
        })
        &&& b.selection_reset()
    }

    /// `b` is `a` with the search query `query` and input mode `mode`, the lists
    /// filtered anew.
    pub open spec fn query_set(a: App, b: App, query: Seq<char>, mode: InputMode) -> bool {
        &&& b == (App {
            search_query: b.search_query,
            input_mode: mode,
            filtered_fn: b.filtered_fn,
            filtered_sel: b.filtered_sel,
            item_selection: b.item_selection,
            ..a
        })
        &&& b.search_query@ == query
        &&& b.selection_reset()
    }
}

/// The move of the selection that a navigation key asks for: one row up or
/// down (arrows, `k`, `j`), or ten (page keys).
pub open spec fn nav_delta(key: KeyInput) -> Option<int> {
    if key == KeyInput::Up || key == KeyInput::Char('k') {
        Some(-1)
    } else if key == KeyInput::Down || key == KeyInput::Char('j') {
        Some(1)
    } else if key == KeyInput::PageUp {
        Some(-10)
    } else if key == KeyInput::PageDown {
        Some(10)
    } else {
        None
    }
}

impl App {
    /// What a key does while the search query is edited: `Esc` clears the query
    /// and leaves the search, `Enter` leaves the search keeping the query,
    /// `Backspace` removes the last character of the query, a character is
    /// appended to it; any change of the query filters the lists anew.
    pub open spec fn search_step(a: App, b: App, key: KeyInput) -> bool {
        match key {
            KeyInput::Esc => App::query_set(a, b, Seq::empty(), InputMode::Normal),
            KeyInput::Enter => b == (App { input_mode: InputMode::Normal, ..a }),
            KeyInput::Backspace => App::query_set(
                a,
                b,
                if a.search_query@.len() == 0 {
                    a.search_query@
                } else {
                    a.search_query@.drop_last()
                },
                InputMode::Searching,
            ),
            KeyInput::Char(c) => App::query_set(a, b, a.search_query@.push(c), InputMode::Searching),
            _ => b == a,
        }
    }

    /// What a key other than `q` does while navigating: `/` starts the search, `Tab`
    /// switches the list, `h` or Left focuses the module list and `l` or Right the
    /// item list (with several modules only), `Enter` on the module list focuses
    /// the item list, and the navigation keys move the selection of the focused
    /// list.
    pub open spec fn normal_step(a: App, b: App, key: KeyInput) -> bool {
        if key == KeyInput::Char('/') {
            b == (App { input_mode: InputMode::Searching, ..a })
        } else if key == KeyInput::Tab {
            App::tab_switched(a, b)
        } else if a.multi_module && (key == KeyInput::Char('h') || key == KeyInput::Left) {
            b == (App { focused: FocusedPane::Modules, ..a })
        } else if a.multi_module && (key == KeyInput::Char('l') || key == KeyInput::Right) {
            b == (App { focused: FocusedPane::Items, ..a })
        } else if key == KeyInput::Enter && a.focused == FocusedPane::Modules {
            b == (App { focused: FocusedPane::Items, ..a })
        } else {
            match nav_delta(key) {
                Some(d) => if a.focused == FocusedPane::Modules {
                    App::module_moved(a, b, d)
                } else {
                    App::item_moved(a, b, d)
                },
                None => b == a,
            }
        }
    }

    /// `b` and `out` are the browser and the outcome after the key `key` in `a`:
    /// `q` while navigating quits and changes nothing; every other key continues.
    pub open spec fn key_handled(a: App, b: App, key: KeyInput, out: KeyOutcome) -> bool {
        match a.input_mode {
            InputMode::Searching => out == KeyOutcome::Continue && App::search_step(a, b, key),
            InputMode::Normal => if key == KeyInput::Char('q') {
                out == KeyOutcome::Quit && b == a
            } else {
                out == KeyOutcome::Continue && App::normal_step(a, b, key)
            },
        }
    }
}

/// A copy of a list of parameters.
fn copy_params(v: &Vec<ParamEntry>) -> (res: Vec<ParamEntry>)
    ensures
        params_view(res@) == params_view(v@),
{
    let mut out: Vec<ParamEntry> = Vec::new();
    let mut i: usize = 0;
    while i < v.len()
        invariant
            i <= v@.len(),
            params_view(out@) == params_view(v@.take(i as int)),
        decreases v@.len() - i,
    {
        let p = ParamEntry { name: v[i].name.clone(), param_type: v[i].param_type.clone() };
        proof {
            assert(param_view(p) == param_view(v@[i as int]));
            assert(params_view(out@.push(p)) =~= params_view(out@).push(param_view(p)));
            assert(params_view(v@.take(i + 1)) =~= params_view(v@.take(i as int)).push(param_view(v@[i as int])));
        }
        out.push(p);
        i = i + 1;
    }
    proof {
        assert(v@.take(v@.len() as int) == v@);
    }
    out
}

/// A copy of a list of examples.
fn copy_examples(v: &Vec<ExampleEntry>) -> (res: Vec<ExampleEntry>)
    ensures
        examples_view(res@) == examples_view(v@),
{
    let mut out: Vec<ExampleEntry> = Vec::new();
    let mut i: usize = 0;
    while i < v.len()
        invariant
            i <= v@.len(),
            examples_view(out@) == examples_view(v@.take(i as int)),
        decreases v@.len() - i,
    {
        let x = ExampleEntry { code: v[i].code.clone(), expected: v[i].expected.clone() };
        proof {
            assert(example_view(x) == example_view(v@[i as int]));
            assert(examples_view(out@.push(x)) =~= examples_view(out@).push(example_view(x)));
            assert(examples_view(v@.take(i + 1)) =~= examples_view(v@.take(i as int)).push(example_view(v@[i as int])));
        }
        out.push(x);
        i = i + 1;
    }
    proof {
        assert(v@.take(v@.len() as int) == v@);
    }
    out
}

/// A copy of an optional string.
fn copy_opt(o: &Option<String>) -> (res: Option<String>)
    ensures
        opt_view(res) == opt_view(*o),
{
    match o {
        Some(s) => Some(s.clone()),
        None => None,
    }
}

/// A copy of an entry.
fn copy_entry(e: &DocEntry) -> (res: DocEntry)
    ensures
        res@ == e@,
{
    DocEntry {
        name: e.name.clone(),
        kind: e.kind.clone(),
        params: copy_params(&e.params),
        returns: e.returns.clone(),
        description: e.description.clone(),
        examples: copy_examples(&e.examples),
        capability: copy_opt(&e.capability),
        related_module: copy_opt(&e.related_module),
    }
}

/// Appends copies of the entries of `v` to `out`.
fn append_copies(out: &mut Vec<DocEntry>, v: &Vec<DocEntry>)
    ensures
        entries_view(final(out)@) == entries_view(old(out)@) + entries_view(v@),
{
    let ghost start = entries_view(out@);
    let mut i: usize = 0;
    while i < v.len()
        invariant
            i <= v@.len(),
            entries_view(out@) == start + entries_view(v@.take(i as int)),
        decreases v@.len() - i,
    {
        let c = copy_entry(&v[i]);
        proof {
            assert(entries_view(out@.push(c)) =~= entries_view(out@).push(c@));
            assert(entries_view(v@.take(i + 1)) =~= entries_view(v@.take(i as int)).push(v@[i as int]@));
        }
        out.push(c);
        i = i + 1;
    }
    proof {
        assert(v@.take(v@.len() as int) == v@);
    }
}

/// The functions of all modules, module after module.
pub open spec fn all_functions(modules: Seq<ModuleEntry>) -> Seq<EntryView>
    decreases modules.len(),
{
    if modules.len() == 0 {
        Seq::empty()
    } else {
        all_functions(modules.drop_last()) + entries_view(modules.last().functions@)
    }
}

/// The selectors of all modules, module after module.
pub open spec fn all_selector_entries(modules: Seq<ModuleEntry>) -> Seq<EntryView>
    decreases modules.len(),
{
    if modules.len() == 0 {
        Seq::empty()
    } else {
        all_selector_entries(modules.drop_last()) + entries_view(modules.last().selectors@)
    }
}

/// Whether the entry is shown for the lower-cased query `q`.
fn entry_shown(q: &str, e: &DocEntry) -> (res: bool)
    ensures
        res == entry_matches(q@, e@),
{
    if q.is_empty() {
        return true;
    }
    let name = to_lowercase(e.name.as_str());
    if contains(name.as_str(), q) {
        return true;
    }
    let description = to_lowercase(e.description.as_str());
    contains(description.as_str(), q)
}

/// The positions of the entries shown for the lower-cased query `q`.
pub fn filter_entries(entries: &Vec<DocEntry>, q: &str) -> (res: Vec<usize>)
    ensures
        res@ == filter_indices(entries_view(entries@), q@),
{
    let mut out: Vec<usize> = Vec::new();
    let mut i: usize = 0;
    while i < entries.len()
        invariant
            i <= entries@.len(),
            out@ == filter_indices(entries_view(entries@.take(i as int)), q@),
        decreases entries@.len() - i,
    {
        proof {
            let t = entries_view(entries@.take(i + 1));
            assert(t.drop_last() =~= entries_view(entries@.take(i as int)));
            assert(t.last() == entries@[i as int]@);
            assert(t.len() - 1 == i);
        }
        if entry_shown(q, &entries[i]) {
            out.push(i);
        }
        i = i + 1;
    }
    proof {
        assert(entries@.take(entries@.len() as int) == entries@);
    }
    out
}

/// `(cur + delta)` wrapped around a list of `count` items.
pub fn wrap_index(cur: usize, delta: isize, count: usize) -> (res: usize)
    requires
        cur < count,
    ensures
        res as int == wrap(cur as int, delta as int, count as int),
        res < count,
{
    let magnitude: usize = if delta >= 0 {
        delta as usize
    } else {
        (-(delta + 1)) as usize + 1
    };
    let step = magnitude % count;
    proof {
        vstd::arithmetic::div_mod::lemma_fundamental_div_mod(magnitude as int, count as int);
    }
    if delta >= 0 {
        let res = if step >= count - cur { step - (count - cur) } else { cur + step };
        proof {
            assert(magnitude as int == delta as int);
            let q = (magnitude as int) / (count as int);
            assert(cur + delta == res + count * (q + if step >= count - cur { 1int } else { 0int })) by (nonlinear_arith)
                requires
                    magnitude as int == count * q + step,
                    delta as int == magnitude as int,
                    step >= count - cur ==> res == step - (count - cur),
                    step < count - cur ==> res == cur + step;
            vstd::arithmetic::div_mod::lemma_mod_multiples_vanish(
                q + if step >= count - cur { 1int } else { 0int },
                res as int,
                count as int,
            );
            vstd::arithmetic::div_mod::lemma_small_mod(res as nat, count as nat);
        }
        res
    } else {
        let res = if step <= cur { cur - step } else { count - (step - cur) };
        proof {
            assert(magnitude as int == -(delta as int));
            let q = (magnitude as int) / (count as int);
            assert(cur + delta == res + count * (-q - if step <= cur { 0int } else { 1int })) by (nonlinear_arith)
                requires
                    magnitude as int == count * q + step,
                    delta as int == -(magnitude as int),
                    step <= cur ==> res == cur - step,
                    step > cur ==> res == count - (step - cur);
            vstd::arithmetic::div_mod::lemma_mod_multiples_vanish(
                -q - if step <= cur { 0int } else { 1int },
                res as int,
                count as int,
            );
            vstd::arithmetic::div_mod::lemma_small_mod(res as nat, count as nat);
        }
        res
    }
}

impl App {
    /// Builds the browser over `modules`, with an "All" module in front that gathers
    /// their entries, the first module selected and the functions shown; the focus is
    /// on the module list when there are several modules. A non-empty initial search
    /// filters the lists.
    pub fn new(modules: Vec<ModuleEntry>, initial_search: Option<String>) -> (res: App)
        ensures
            res.wf(),
            res.module_names@.len() == modules@.len() + 1,
            res.module_names@[0]@ == "All"@,
            forall|i: int| 0 <= i < modules@.len() ==> #[trigger] res.module_names@[i + 1]@ == modules@[i].name@,
            entries_view(res.module_functions@[0]@) == all_functions(modules@),
            entries_view(res.module_selectors@[0]@) == all_selector_entries(modules@),
            forall|i: int| 0 <= i < modules@.len() ==> entries_view(#[trigger] res.module_functions@[i + 1]@)
                == entries_view(modules@[i].functions@),
            forall|i: int| 0 <= i < modules@.len() ==> entries_view(#[trigger] res.module_selectors@[i + 1]@)
                == entries_view(modules@[i].selectors@),
            res.selected_module == 0,
            res.content_tab == ContentTab::Functions,
            res.input_mode == InputMode::Normal,
            res.search_query@ == match initial_search {
                Some(s) => s@,
                None => Seq::empty(),
            },
            res.focused == if modules@.len() > 1 { FocusedPane::Modules } else { FocusedPane::Items },
            res.selection_reset(),
            res.search_query@.len() == 0 ==> res.filtered_fn@ == positions(all_functions(modules@).len())
                && res.filtered_sel@ == positions(all_selector_entries(modules@).len()),
    {
        let multi_module = modules.len() > 1;
        let mut all_fns: Vec<DocEntry> = Vec::new();
        let mut all_sels: Vec<DocEntry> = Vec::new();
        let mut k: usize = 0;
        while k < modules.len()
            invariant
                k <= modules@.len(),
                entries_view(all_fns@) == all_functions(modules@.take(k as int)),
                entries_view(all_sels@) == all_selector_entries(modules@.take(k as int)),
            decreases modules@.len() - k,
        {
            proof {
                assert(modules@.take(k + 1).drop_last() == modules@.take(k as int));
            }
            append_copies(&mut all_fns, &modules[k].functions);
            append_copies(&mut all_sels, &modules[k].selectors);
            k = k + 1;
        }
        proof {
            assert(modules@.take(modules@.len() as int) == modules@);
        }
        let ghost given = modules@;
        let mut module_names: Vec<String> = Vec::new();
        module_names.push(String::from_str("All"));
        let mut module_functions: Vec<Vec<DocEntry>> = Vec::new();
        module_functions.push(all_fns);
        let mut module_selectors: Vec<Vec<DocEntry>> = Vec::new();
        module_selectors.push(all_sels);
        let mut rest = modules;
        let ghost mut taken: int = 0;
        while rest.len() > 0
            invariant
                0 <= taken <= given.len(),
                rest@ == given.skip(taken),
                module_names@.len() == taken + 1,
                module_functions@.len() == taken + 1,
                module_selectors@.len() == taken + 1,
                module_names@[0]@ == "All"@,
                entries_view(module_functions@[0]@) == all_functions(given),
                entries_view(module_selectors@[0]@) == all_selector_entries(given),
                forall|i: int| 0 <= i < taken ==> #[trigger] module_names@[i + 1]@ == given[i].name@,
                forall|i: int| 0 <= i < taken ==> entries_view(#[trigger] module_functions@[i + 1]@)
                    == entries_view(given[i].functions@),
                forall|i: int| 0 <= i < taken ==> entries_view(#[trigger] module_selectors@[i + 1]@)
                    == entries_view(given[i].selectors@),
            decreases rest.len(),
        {
            let m = rest.remove(0);
            proof {
                assert(m == given[taken]);
                assert(rest@ =~= given.skip(taken + 1));
            }
            let ModuleEntry { name, functions, selectors } = m;
            module_names.push(name);
            module_functions.push(functions);
            module_selectors.push(selectors);
            proof {
                taken = taken + 1;
            }
        }
        proof {
            assert(taken == given.len());
        }
        let search_query = match initial_search {
            Some(s) => s,
            None => String::new(),
        };
        let mut app = App {
            module_names,
            module_functions,
            module_selectors,
            selected_module: 0,
            module_selection: Some(0),
            content_tab: ContentTab::Functions,
            filtered_fn: Vec::new(),
            filtered_sel: Vec::new(),
            item_selection: None,
            focused: if multi_module { FocusedPane::Modules } else { FocusedPane::Items },
            input_mode: InputMode::Normal,
            search_query,
            multi_module,
        };
        app.apply_filter();
        app
    }

    /// The functions of the selected module.
    pub fn current_fns(&self) -> (res: &Vec<DocEntry>)
        requires
            self.shape_ok(),
        ensures
            entries_view(res@) == self.fns(),
    {
        &self.module_functions[self.selected_module]
    }

    /// The selectors of the selected module.
    pub fn current_sels(&self) -> (res: &Vec<DocEntry>)
        requires
            self.shape_ok(),
        ensures
            entries_view(res@) == self.sels(),
    {
        &self.module_selectors[self.selected_module]
    }

    /// Filters the selected module's lists by the search query and selects the first
    /// row of the shown list, if any.
    pub fn apply_filter(&mut self)
        requires
            old(self).shape_ok(),
        ensures
            final(self).wf(),
            *final(self) == (App {
                filtered_fn: final(self).filtered_fn,
                filtered_sel: final(self).filtered_sel,
                item_selection: final(self).item_selection,
                ..*old(self)
            }),
            final(self).selection_reset(),
            final(self).search_query@.len() == 0 ==> final(self).filtered_fn@ == positions(final(self).fns().len())
                && final(self).filtered_sel@ == positions(final(self).sels().len()),
    {
        let q = to_lowercase(self.search_query.as_str());
        let fns = filter_entries(&self.module_functions[self.selected_module], q.as_str());
        let sels = filter_entries(&self.module_selectors[self.selected_module], q.as_str());
        proof {
            if self.search_query@.len() == 0 {
                lemma_empty_query_shows_all(self.fns(), q@);
                lemma_empty_query_shows_all(self.sels(), q@);
            }
        }
        self.filtered_fn = fns;
        self.filtered_sel = sels;
        let empty = match self.content_tab {
            ContentTab::Functions => self.filtered_fn.len() == 0,
            ContentTab::Selectors => self.filtered_sel.len() == 0,
        };
        self.item_selection = if empty { None } else { Some(0) };
    }

    /// Selects the module `idx`, if there is one, and filters its lists.
    pub fn select_module(&mut self, idx: usize)
        requires
            old(self).wf(),
        ensures
            final(self).wf(),
            idx < old(self).module_names@.len() ==> App::module_selected(*old(self), *final(self), idx as int),
            idx >= old(self).module_names@.len() ==> *final(self) == *old(self),
    {
        if idx >= self.module_names.len() {
            return;
        }
        self.selected_module = idx;
        self.module_selection = Some(idx);
        self.apply_filter();
    }

    /// Moves the module selection by `delta`, wrapping around.
    pub fn navigate_module(&mut self, delta: isize)
        requires
            old(self).wf(),
        ensures
            final(self).wf(),
            App::module_moved(*old(self), *final(self), delta as int),
    {
        let count = self.module_names.len();
        let cur = match self.module_selection {
            Some(k) => k,
            None => 0,
        };
        let next = wrap_index(cur, delta, count);
        self.select_module(next);
    }

    /// Moves the item selection by `delta`, wrapping around; does nothing when the
    /// shown list is empty.
    pub fn navigate_item(&mut self, delta: isize)
        requires
            old(self).wf(),
        ensures
            final(self).wf(),
            App::item_moved(*old(self), *final(self), delta as int),
    {
        let count = match self.content_tab {
            ContentTab::Functions => self.filtered_fn.len(),
            ContentTab::Selectors => self.filtered_sel.len(),
        };
        if count == 0 {
            return;
        }
        let cur = match self.item_selection {
            Some(k) => k,
            None => 0,
        };
        self.item_selection = Some(wrap_index(cur, delta, count));
    }

    /// Shows the other list and selects its first row, if any.
    pub fn switch_content_tab(&mut self)
        requires
            old(self).wf(),
        ensures
            final(self).wf(),
            App::tab_switched(*old(self), *final(self)),
    {
        self.content_tab = match self.content_tab {
            ContentTab::Functions => ContentTab::Selectors,
            ContentTab::Selectors => ContentTab::Functions,
        };
        let empty = match self.content_tab {
            ContentTab::Functions => self.filtered_fn.len() == 0,
            ContentTab::Selectors => self.filtered_sel.len() == 0,
        };
        self.item_selection = if empty { None } else { Some(0) };
    }

    /// The highlighted function, if any.
    pub fn current_fn_entry(&self) -> (res: Option<&DocEntry>)
        requires
            self.wf(),
        ensures
            res matches Some(e) ==> (self.item_selection matches Some(k) && k < self.filtered_fn@.len()
                && e@ == self.fns()[self.filtered_fn@[k as int] as int]),
            res is None ==> !(self.item_selection matches Some(k) && k < self.filtered_fn@.len()),
    {
        let idx = match self.item_selection {
            Some(k) => k,
            None => return None,
        };
        if idx >= self.filtered_fn.len() {
            return None;
        }
        let pos: usize = self.filtered_fn[idx];
        let fns = self.current_fns();
        proof {
            lemma_filter_indices_bound(self.fns(), self.query(), idx as int);
        }
        Some(&fns[pos])
    }

    /// The highlighted selector, if any.
    pub fn current_sel_entry(&self) -> (res: Option<&DocEntry>)
        requires
            self.wf(),
        ensures
            res matches Some(e) ==> (self.item_selection matches Some(k) && k < self.filtered_sel@.len()
                && e@ == self.sels()[self.filtered_sel@[k as int] as int]),
            res is None ==> !(self.item_selection matches Some(k) && k < self.filtered_sel@.len()),
    {
        let idx = match self.item_selection {
            Some(k) => k,
            None => return None,
        };
        if idx >= self.filtered_sel.len() {
            return None;
        }
        let pos: usize = self.filtered_sel[idx];
        let sels = self.current_sels();
        proof {
            lemma_filter_indices_bound(self.sels(), self.query(), idx as int);
        }
        Some(&sels[pos])
    }

    /// The number of functions shown.
    pub fn fn_count(&self) -> (res: usize)
        ensures
            res == self.filtered_fn@.len(),
    {
        self.filtered_fn.len()
    }

    /// The number of selectors shown.
    pub fn sel_count(&self) -> (res: usize)
        ensures
            res == self.filtered_sel@.len(),
    {
        self.filtered_sel.len()
    }

    /// Handles one key press: edits the search query while searching, and
    /// otherwise switches lists, moves the focus or the selection, starts the
    /// search, or quits on `q`.
    pub fn handle_key(&mut self, key: KeyInput) -> (res: KeyOutcome)
        requires
            old(self).wf(),
        ensures
            final(self).wf(),
            App::key_handled(*old(self), *final(self), key, res),
    {
        match self.input_mode {
            InputMode::Searching => {
                match key {
                    KeyInput::Esc => {
                        self.input_mode = InputMode::Normal;
                        self.search_query = String::new();
                        self.apply_filter();
                    },
                    KeyInput::Enter => {
                        self.input_mode = InputMode::Normal;
                    },
                    KeyInput::Backspace => {
                        let mut query = self.search_query.clone();
                        let _ = pop_char(&mut query);
                        self.search_query = query;
                        self.apply_filter();
                    },
                    KeyInput::Char(c) => {
                        let mut query = self.search_query.clone();
                        push_char(&mut query, c);
                        self.search_query = query;
                        self.apply_filter();
                    },
                    _ => {},
                }
                KeyOutcome::Continue
            },
            InputMode::Normal => {
                if key == KeyInput::Char('q') {
                    return KeyOutcome::Quit;
                }
                if key == KeyInput::Char('/') {
                    self.input_mode = InputMode::Searching;
                } else if key == KeyInput::Tab {
                    self.switch_content_tab();
                } else if self.multi_module && (key == KeyInput::Char('h') || key == KeyInput::Left) {
                    self.focused = FocusedPane::Modules;
                } else if self.multi_module && (key == KeyInput::Char('l') || key == KeyInput::Right) {
                    self.focused = FocusedPane::Items;
                } else if key == KeyInput::Enter && self.focused == FocusedPane::Modules {
                    self.focused = FocusedPane::Items;
                } else {
                    match nav_step(key) {
                        Some(d) => match self.focused {
                            FocusedPane::Modules => self.navigate_module(d),
                            FocusedPane::Items => self.navigate_item(d),
                        },
                        None => {},
                    }
                }
                KeyOutcome::Continue
            },
        }
    }
}

/// The move of the selection that a navigation key asks for.
fn nav_step(key: KeyInput) -> (res: Option<isize>)
    ensures
        match res {
            Some(d) => nav_delta(key) == Some(d as int),
            None => nav_delta(key) is None,
        },
{
    if key == KeyInput::Up || key == KeyInput::Char('k') {
        Some(-1)
    } else if key == KeyInput::Down || key == KeyInput::Char('j') {
        Some(1)
    } else if key == KeyInput::PageUp {
        Some(-10)
    } else if key == KeyInput::PageDown {
        Some(10)
    } else {
        None
    }
}

/// Every shown position is a position of the list, and the positions increase.
pub proof fn lemma_filter_indices_bound(es: Seq<EntryView>, q: Seq<char>, k: int)
    requires
        0 <= k < filter_indices(es, q).len(),
    ensures
        filter_indices(es, q)[k] < es.len(),
    decreases es.len(),
{
    let r = filter_indices(es.drop_last(), q);
    if es.len() > 0 && k < r.len() {
        lemma_filter_indices_bound(es.drop_last(), q, k);
    }
}

/// With an empty query every entry is shown, in order.
pub proof fn lemma_empty_query_shows_all(es: Seq<EntryView>, q: Seq<char>)
    requires
        q.len() == 0,
    ensures
        filter_indices(es, q) == positions(es.len()),
    decreases es.len(),
{
    if es.len() > 0 {
        lemma_empty_query_shows_all(es.drop_last(), q);
        assert(positions((es.len() - 1) as nat).push((es.len() - 1) as usize) =~= positions(es.len()));
    } else {
        assert(positions(0) =~= Seq::<usize>::empty());
    }
}

/// Moving the item selection by `delta` and then by `-delta` gives back the
/// browser as it was.
pub proof fn lemma_item_moves_cancel(a: App, b: App, c: App, delta: int)
    requires
        a.wf(),
        App::item_moved(a, b, delta),
        App::item_moved(b, c, -delta),
    ensures
        c == a,
{
    assert(a.filtered_fn.len() == a.filtered_fn@.len());
    assert(a.filtered_sel.len() == a.filtered_sel@.len());
    if a.tab_count() > 0 {
        let n = a.tab_count() as int;
        let k = a.item_selection->0 as int;
        let r = wrap(k, delta, n);
        vstd::arithmetic::div_mod::lemma_fundamental_div_mod(k + delta, n);
        vstd::arithmetic::div_mod::lemma_mod_bound(k + delta, n);
        let q = (k + delta) / n;
        assert(r + (-delta) == n * (-q) + k) by (nonlinear_arith)
            requires
                k + delta == n * q + r,
        ;
        vstd::arithmetic::div_mod::lemma_mod_multiples_vanish(-q, k, n);
        vstd::arithmetic::div_mod::lemma_small_mod(k as nat, n as nat);
        assert(wrap(r, -delta, n) == k);
        assert(b.tab_count() == a.tab_count());
    }
}

/// Moving the module selection by `delta` and then by `-delta` selects the same
/// module again, showing the same lists.
pub proof fn lemma_module_moves_cancel(a: App, b: App, c: App, delta: int)
    requires
        a.wf(),
        b.wf(),
        c.wf(),
        App::module_moved(a, b, delta),
        App::module_moved(b, c, -delta),
    ensures
        c == (App {
            filtered_fn: c.filtered_fn,
            filtered_sel: c.filtered_sel,
            item_selection: c.item_selection,
            ..a
        }),
        c.filtered_fn@ == a.filtered_fn@,
        c.filtered_sel@ == a.filtered_sel@,
        c.selection_reset(),
{
    assert(a.module_names.len() == a.module_names@.len());
    let n = a.module_names@.len() as int;
    let k = a.selected_module as int;
    let r = wrap(k, delta, n);
    vstd::arithmetic::div_mod::lemma_fundamental_div_mod(k + delta, n);
    vstd::arithmetic::div_mod::lemma_mod_bound(k + delta, n);
    let q = (k + delta) / n;
    assert(r + (-delta) == n * (-q) + k) by (nonlinear_arith)
        requires
            k + delta == n * q + r,
    ;
    vstd::arithmetic::div_mod::lemma_mod_multiples_vanish(-q, k, n);
    vstd::arithmetic::div_mod::lemma_small_mod(k as nat, n as nat);
    assert(wrap(r, -delta, n) == k);
    assert(c.selected_module == a.selected_module);
    assert(c.fns() == a.fns());
    assert(c.sels() == a.sels());
}

/// Switching the list twice shows the first list again, with its first row
/// selected.
pub proof fn lemma_tab_switch_twice(a: App, b: App, c: App)
    requires
        a.wf(),
        App::tab_switched(a, b),
        App::tab_switched(b, c),
    ensures
        c == (App { item_selection: c.item_selection, ..a }),
        c.selection_reset(),
{
}

/// While searching, typing a character and erasing it with Backspace gives back
/// the query and the lists shown before.
pub proof fn lemma_type_then_erase(a: App, b: App, c: App, ch: char, o1: KeyOutcome, o2: KeyOutcome)
    requires
        a.wf(),
        b.wf(),
        c.wf(),
        a.input_mode == InputMode::Searching,
        App::key_handled(a, b, KeyInput::Char(ch), o1),
        App::key_handled(b, c, KeyInput::Backspace, o2),
    ensures
        c == (App {
            search_query: c.search_query,
            filtered_fn: c.filtered_fn,
            filtered_sel: c.filtered_sel,
            item_selection: c.item_selection,
            ..a
        }),
        c.search_query@ == a.search_query@,
        c.filtered_fn@ == a.filtered_fn@,
        c.filtered_sel@ == a.filtered_sel@,
        o1 == KeyOutcome::Continue,
        o2 == KeyOutcome::Continue,
{
    assert(b.search_query@ == a.search_query@.push(ch));
    assert(b.search_query@.drop_last() =~= a.search_query@);
    assert(c.query() == a.query());
    assert(c.fns() == a.fns());
    assert(c.sels() == a.sels());
}

} // verus!
