//! The detail view of one documentation entry in the browser: its heading, a
//! deprecation notice, its description, parameters and return type, the module
//! that defines it, the capability it needs and its examples, as lines of styled
//! text segments. Turning a style into colours is left to the caller.
use crate::browser::{param_view, params_view, DocEntry, EntryView};
use crate::symbols::{deprecation_marker, is_deprecation_marker};
use crate::text::{join, join_strings, lines, lines_of, strings_view};
use vstd::prelude::*;
use vstd::string::StringExecFns;

verus! {

/// The heading label of a selector.
pub const SELECTOR_LABEL: &'static str = "Selector:    ";

/// The heading label of a function.
pub const FUNCTION_LABEL: &'static str = "Function:    ";

/// The line shown under the heading of a deprecated entry.
pub const DEPRECATED_NOTICE: &'static str = "             ⚠ Deprecated";

/// The title of the description.
pub const DESCRIPTION_LABEL: &'static str = "Description";

/// The line shown in place of an empty description.
pub const NO_DESCRIPTION: &'static str = "  —";

/// The text shown in place of an empty parameter list.
pub const NO_PARAMETERS: &'static str = "—";

/// The label of the parameter list.
pub const PARAMETERS_LABEL: &'static str = "Parameters:  ";

/// The label of the return type.
pub const RETURNS_LABEL: &'static str = "Returns:     ";

/// The label of the defining module.
pub const MODULE_LABEL: &'static str = "Module:      ";

/// The label of the needed capability.
pub const CAPABILITY_LABEL: &'static str = "Capability:  ";

/// The title of the examples.
pub const EXAMPLES_LABEL: &'static str = "Examples";

/// The indentation of description lines and example code.
pub const INDENT: &'static str = "  ";

/// The prefix of the first line of an example's expected output.
pub const RESULT_PREFIX: &'static str = "  #=> ";

/// The prefix of the further lines of an example's expected output.
pub const CONTINUATION_PREFIX: &'static str = "      ";

/// How a segment of text is shown.
#[derive(Clone, Copy, Debug, PartialEq, Eq, Structural)]
pub enum SpanStyle {
    /// A field label or section title.
    Label,
    /// The entry's name in the heading.
    Name,
    /// Text that marks deprecation: the notice, or a deprecated entry's name.
    Deprecated,
    /// Unstyled text.
    Plain,
    /// The label of the needed capability.
    CapabilityLabel,
    /// A line of example code.
    Code,
    /// A line of an example's expected output.
    Output,
    /// The search query being typed.
    Query,
    /// The cursor after the search query.
    Cursor,
    /// A key hint.
    Hint,
}

/// A piece of text with one style.
pub struct Segment {
    pub style: SpanStyle,
    pub text: String,
}

/// A segment as a pair of its style and its text.
pub open spec fn segment_view(s: Segment) -> (SpanStyle, Seq<char>) {
    (s.style, s.text@)
}

/// The view of a line of segments.
pub open spec fn line_view(l: Seq<Segment>) -> Seq<(SpanStyle, Seq<char>)> {
    l.map_values(|s: Segment| segment_view(s))
}

/// The views of a list of lines.
pub open spec fn lines_view(ls: Seq<Vec<Segment>>) -> Seq<Seq<(SpanStyle, Seq<char>)>> {
    ls.map_values(|l: Vec<Segment>| line_view(l@))
}

/// Some line of the entry's description marks it as deprecated.
pub open spec fn entry_deprecated(e: EntryView) -> bool {
    exists|i: int| 0 <= i < lines(e.description).len() && is_deprecation_marker(#[trigger] lines(e.description)[i])
}

/// The heading label of an entry of the given kind.
pub open spec fn label_of(kind: Seq<char>) -> Seq<char> {
    if kind == "selector"@ {
        SELECTOR_LABEL@
    } else {
        FUNCTION_LABEL@
    }
}

/// A line of one segment.
pub open spec fn single(style: SpanStyle, text: Seq<char>) -> Seq<(SpanStyle, Seq<char>)> {
    seq![(style, text)]
}

/// An empty line.
pub open spec fn blank() -> Seq<(SpanStyle, Seq<char>)> {
    single(SpanStyle::Plain, Seq::empty())
}

/// Each of `ls` as a line of one segment in `style`, behind `prefix`.
pub open spec fn prefixed(ls: Seq<Seq<char>>, style: SpanStyle, prefix: Seq<char>) -> Seq<Seq<(SpanStyle, Seq<char>)>> {
    ls.map_values(|l: Seq<char>| single(style, prefix + l))
}

/// The lines of an example's expected output: the first behind `  #=> `, the
/// others indented as far.
pub open spec fn output_lines(ls: Seq<Seq<char>>) -> Seq<Seq<(SpanStyle, Seq<char>)>> {
    Seq::new(
        ls.len(),
        |i: int|
            single(
                SpanStyle::Output,
                (if i == 0 {
                    RESULT_PREFIX@
                } else {
                    CONTINUATION_PREFIX@
                }) + ls[i],
            ),
    )
}

/// The lines of one example: its code, then its expected output.
pub open spec fn example_lines(x: (Seq<char>, Seq<char>)) -> Seq<Seq<(SpanStyle, Seq<char>)>> {
    prefixed(lines(x.0), SpanStyle::Code, INDENT@) + output_lines(lines(x.1))
}

/// The lines of the examples, one after the other.
pub open spec fn all_example_lines(xs: Seq<(Seq<char>, Seq<char>)>) -> Seq<Seq<(SpanStyle, Seq<char>)>>
    decreases xs.len(),
{
    if xs.len() == 0 {
        Seq::empty()
    } else {
        all_example_lines(xs.drop_last()) + example_lines(xs.last())
    }
}

/// A parameter as `name: type`.
pub open spec fn param_text(p: (Seq<char>, Seq<char>)) -> Seq<char> {
    p.0 + ": "@ + p.1
}

/// Each parameter as `name: type`.
pub open spec fn param_texts(ps: Seq<(Seq<char>, Seq<char>)>) -> Seq<Seq<char>> {
    ps.map_values(|p: (Seq<char>, Seq<char>)| param_text(p))
}

/// The parameters as `name: type`, separated by commas.
pub open spec fn params_text(ps: Seq<(Seq<char>, Seq<char>)>) -> Seq<char> {
    join(param_texts(ps), ", "@)
}

/// The heading, and the deprecation notice when the entry is deprecated.
pub open spec fn heading_lines(e: EntryView, label: Seq<char>) -> Seq<Seq<(SpanStyle, Seq<char>)>> {
    seq![seq![(SpanStyle::Label, label), (SpanStyle::Name, e.name)]] + if entry_deprecated(e) {
        seq![single(SpanStyle::Deprecated, DEPRECATED_NOTICE@)]
    } else {
        Seq::empty()
    }
}

/// The description section: its title, then the indented lines of the
/// description, or a dash when it is empty.
pub open spec fn description_lines(e: EntryView) -> Seq<Seq<(SpanStyle, Seq<char>)>> {
    seq![blank(), single(SpanStyle::Label, DESCRIPTION_LABEL@)] + if e.description.len() == 0 {
        seq![single(SpanStyle::Plain, NO_DESCRIPTION@)]
    } else {
        prefixed(lines(e.description), SpanStyle::Plain, INDENT@)
    }
}

/// The parameter list (a dash when there is none) and the return type.
pub open spec fn signature_lines(e: EntryView) -> Seq<Seq<(SpanStyle, Seq<char>)>> {
    let ps = params_text(e.params);
    seq![
        blank(),
        seq![(SpanStyle::Label, PARAMETERS_LABEL@), (SpanStyle::Plain, if ps.len() == 0 { NO_PARAMETERS@ } else { ps })],
        seq![(SpanStyle::Label, RETURNS_LABEL@), (SpanStyle::Plain, e.returns)],
    ]
}

/// How to call `name` from the module `m`: `import "m" | m::name(...)`.
pub open spec fn module_call(m: Seq<char>, name: Seq<char>) -> Seq<char> {
    "import \""@ + m + "\" | "@ + m + "::"@ + name + "(...)"@
}

/// The defining module, when there is one.
pub open spec fn module_lines(e: EntryView) -> Seq<Seq<(SpanStyle, Seq<char>)>> {
    match e.related_module {
        Some(m) => seq![blank(), seq![(SpanStyle::Label, MODULE_LABEL@), (SpanStyle::Plain, module_call(m, e.name))]],
        None => Seq::empty(),
    }
}

/// The note on a needed capability.
pub open spec fn capability_note(c: Seq<char>) -> Seq<char> {
    "requires `"@ + c + "` (not available via the hosted Web API/playground)"@
}

/// The needed capability, when there is one.
pub open spec fn capability_lines(e: EntryView) -> Seq<Seq<(SpanStyle, Seq<char>)>> {
    match e.capability {
        Some(c) => seq![blank(), seq![(SpanStyle::CapabilityLabel, CAPABILITY_LABEL@), (SpanStyle::Plain, capability_note(c))]],
        None => Seq::empty(),
    }
}

/// The examples section, when there are examples.
pub open spec fn examples_section(e: EntryView) -> Seq<Seq<(SpanStyle, Seq<char>)>> {
    if e.examples.len() == 0 {
        Seq::empty()
    } else {
        seq![blank(), single(SpanStyle::Label, EXAMPLES_LABEL@)] + all_example_lines(e.examples)
    }
}

/// The detail view of an entry under the heading label `label`.
pub open spec fn detail_spec(e: EntryView, label: Seq<char>) -> Seq<Seq<(SpanStyle, Seq<char>)>> {
    heading_lines(e, label) + description_lines(e) + signature_lines(e) + module_lines(e) + capability_lines(e)
        + examples_section(e)
}

/// Whether some line of the entry's description marks it as deprecated.
pub fn is_deprecated(e: &DocEntry) -> (res: bool)
    ensures
        res == entry_deprecated(e@),
{
    let ls = lines_of(e.description.as_str());
    let mut i: usize = 0;
    while i < ls.len()
        invariant
            i <= ls@.len(),
            strings_view(ls@) == lines(e.description@),
            forall|k: int| 0 <= k < i ==> !is_deprecation_marker(#[trigger] lines(e.description@)[k]),
        decreases ls@.len() - i,
    {
        if deprecation_marker(ls[i].as_str()) {
            proof {
                assert(lines(e.description@)[i as int] == ls@[i as int]@);
                assert(is_deprecation_marker(lines(e@.description)[i as int]));
            }
            return true;
        }
        proof {
            assert(lines(e.description@)[i as int] == ls@[i as int]@);
        }
        i = i + 1;
    }
    false
}

/// The heading label of the entry: `Selector:` for a selector, `Function:`
/// otherwise.
pub fn detail_label(e: &DocEntry) -> (res: &'static str)
    ensures
        res@ == label_of(e.kind@),
{
    let selector = String::from_str("selector");
    if e.kind == selector {
        SELECTOR_LABEL
    } else {
        FUNCTION_LABEL
    }
}

/// A segment.
pub(crate) fn segment(style: SpanStyle, text: String) -> (res: Segment)
    ensures
        segment_view(res) == (style, text@),
{
    Segment { style, text }
}

/// A line of one segment.
pub(crate) fn line1(style: SpanStyle, text: String) -> (res: Vec<Segment>)
    ensures
        line_view(res@) == single(style, text@),
{
    let mut l: Vec<Segment> = Vec::new();
    let s = segment(style, text);
    l.push(s);
    proof {
        assert(line_view(l@) =~= single(style, text@));
    }
    l
}

/// A line of two segments.
fn line2(style1: SpanStyle, text1: String, style2: SpanStyle, text2: String) -> (res: Vec<Segment>)
    ensures
        line_view(res@) == seq![(style1, text1@), (style2, text2@)],
{
    let mut l: Vec<Segment> = Vec::new();
    l.push(segment(style1, text1));
    l.push(segment(style2, text2));
    proof {
        assert(line_view(l@) =~= seq![(style1, text1@), (style2, text2@)]);
    }
    l
}

/// Appends a line.
fn push_line(out: &mut Vec<Vec<Segment>>, line: Vec<Segment>)
    ensures
        lines_view(final(out)@) == lines_view(old(out)@).push(line_view(line@)),
{
    let ghost v = line_view(line@);
    out.push(line);
    proof {
        assert(lines_view(out@) =~= lines_view(old(out)@).push(v));
    }
}

/// `prefix` followed by `s`.
pub(crate) fn concat(prefix: &str, s: &str) -> (res: String)
    ensures
        res@ == prefix@ + s@,
{
    let mut out = String::from_str(prefix);
    out.append(s);
    out
}

/// Appends each of `ls` as a line of one segment in `style`, behind `prefix`.
fn push_prefixed(out: &mut Vec<Vec<Segment>>, ls: &Vec<String>, style: SpanStyle, prefix: &str)
    ensures
        lines_view(final(out)@) == lines_view(old(out)@) + prefixed(strings_view(ls@), style, prefix@),
{
    let mut i: usize = 0;
    while i < ls.len()
        invariant
            i <= ls@.len(),
            lines_view(out@) == lines_view(old(out)@) + prefixed(strings_view(ls@.take(i as int)), style, prefix@),
        decreases ls@.len() - i,
    {
        let text = concat(prefix, ls[i].as_str());
        let line = line1(style, text);
        proof {
            assert(prefixed(strings_view(ls@.take(i + 1)), style, prefix@) =~= prefixed(
                strings_view(ls@.take(i as int)),
                style,
                prefix@,
            ).push(single(style, prefix@ + ls@[i as int]@)));
        }
        push_line(out, line);
        i = i + 1;
    }
    proof {
        assert(ls@.take(ls@.len() as int) == ls@);
    }
}

/// Appends the lines of an example's expected output.
fn push_output(out: &mut Vec<Vec<Segment>>, ls: &Vec<String>)
    ensures
        lines_view(final(out)@) == lines_view(old(out)@) + output_lines(strings_view(ls@)),
{
    let mut i: usize = 0;
    while i < ls.len()
        invariant
            i <= ls@.len(),
            lines_view(out@) == lines_view(old(out)@) + output_lines(strings_view(ls@.take(i as int))),
        decreases ls@.len() - i,
    {
        let prefix = if i == 0 { RESULT_PREFIX } else { CONTINUATION_PREFIX };
        let text = concat(prefix, ls[i].as_str());
        let line = line1(SpanStyle::Output, text);
        proof {
            assert(output_lines(strings_view(ls@.take(i + 1))) =~= output_lines(strings_view(ls@.take(i as int))).push(
                single(SpanStyle::Output, prefix@ + ls@[i as int]@),
            ));
        }
        push_line(out, line);
        i = i + 1;
    }
    proof {
        assert(ls@.take(ls@.len() as int) == ls@);
    }
}

/// Appends the heading and, for a deprecated entry, the deprecation notice.
fn push_heading(out: &mut Vec<Vec<Segment>>, e: &DocEntry, label: &str)
    ensures
        lines_view(final(out)@) == lines_view(old(out)@) + heading_lines(e@, label@),
{
    let head = line2(SpanStyle::Label, String::from_str(label), SpanStyle::Name, e.name.clone());
    push_line(out, head);
    if is_deprecated(e) {
        let notice = line1(SpanStyle::Deprecated, String::from_str(DEPRECATED_NOTICE));
        push_line(out, notice);
    }
    proof {
        assert(lines_view(out@) =~= lines_view(old(out)@) + heading_lines(e@, label@));
    }
}

/// Appends the description section.
fn push_description(out: &mut Vec<Vec<Segment>>, e: &DocEntry)
    ensures
        lines_view(final(out)@) == lines_view(old(out)@) + description_lines(e@),
{
    push_line(out, line1(SpanStyle::Plain, String::new()));
    push_line(out, line1(SpanStyle::Label, String::from_str(DESCRIPTION_LABEL)));
    let ghost mid = lines_view(out@);
    if e.description.as_str().is_empty() {
        push_line(out, line1(SpanStyle::Plain, String::from_str(NO_DESCRIPTION)));
    } else {
        let ls = lines_of(e.description.as_str());
        push_prefixed(out, &ls, SpanStyle::Plain, INDENT);
    }
    proof {
        assert(lines_view(out@) =~= lines_view(old(out)@) + description_lines(e@));
    }
}

/// The parameters as `name: type`, separated by commas.
fn params_string(e: &DocEntry) -> (res: String)
    ensures
        res@ == params_text(e@.params),
{
    let mut parts: Vec<String> = Vec::new();
    let mut i: usize = 0;
    while i < e.params.len()
        invariant
            i <= e.params@.len(),
            strings_view(parts@) == param_texts(params_view(e.params@.take(i as int))),
        decreases e.params@.len() - i,
    {
        let mut part = concat(e.params[i].name.as_str(), ": ");
        part.append(e.params[i].param_type.as_str());
        proof {
            assert(part@ == param_text(param_view(e.params@[i as int])));
            let before = e.params@.take(i as int);
            let after = e.params@.take(i + 1);
            assert(after =~= before.push(e.params@[i as int]));
            assert(params_view(after) =~= params_view(before).push(param_view(e.params@[i as int])));
            assert(param_texts(params_view(after)) =~= param_texts(params_view(before)).push(part@));
            assert(strings_view(parts@.push(part)) =~= strings_view(parts@).push(part@));
        }
        parts.push(part);
        i = i + 1;
    }
    proof {
        assert(e.params@.take(e.params@.len() as int) == e.params@);
    }
    join_strings(&parts, ", ")
}

/// Appends the parameter list and the return type.
fn push_signature(out: &mut Vec<Vec<Segment>>, e: &DocEntry)
    ensures
        lines_view(final(out)@) == lines_view(old(out)@) + signature_lines(e@),
{
    push_line(out, line1(SpanStyle::Plain, String::new()));
    let ps = params_string(e);
    let shown = if ps.as_str().is_empty() { String::from_str(NO_PARAMETERS) } else { ps };
    push_line(out, line2(SpanStyle::Label, String::from_str(PARAMETERS_LABEL), SpanStyle::Plain, shown));
    push_line(out, line2(SpanStyle::Label, String::from_str(RETURNS_LABEL), SpanStyle::Plain, e.returns.clone()));
    proof {
        assert(lines_view(out@) =~= lines_view(old(out)@) + signature_lines(e@));
    }
}

/// Appends the defining module, when there is one.
fn push_module(out: &mut Vec<Vec<Segment>>, e: &DocEntry)
    ensures
        lines_view(final(out)@) == lines_view(old(out)@) + module_lines(e@),
{
    match &e.related_module {
        Some(m) => {
            let mut call = concat("import \"", m.as_str());
            call.append("\" | ");
            call.append(m.as_str());
            call.append("::");
            call.append(e.name.as_str());
            call.append("(...)");
            push_line(out, line1(SpanStyle::Plain, String::new()));
            push_line(out, line2(SpanStyle::Label, String::from_str(MODULE_LABEL), SpanStyle::Plain, call));
        },
        None => {},
    }
    proof {
        assert(lines_view(out@) =~= lines_view(old(out)@) + module_lines(e@));
    }
}

/// Appends the needed capability, when there is one.
fn push_capability(out: &mut Vec<Vec<Segment>>, e: &DocEntry)
    ensures
        lines_view(final(out)@) == lines_view(old(out)@) + capability_lines(e@),
{
    match &e.capability {
        Some(c) => {
            let mut note = concat("requires `", c.as_str());
            note.append("` (not available via the hosted Web API/playground)");
            push_line(out, line1(SpanStyle::Plain, String::new()));
            push_line(out, line2(SpanStyle::CapabilityLabel, String::from_str(CAPABILITY_LABEL), SpanStyle::Plain, note));
        },
        None => {},
    }
    proof {
        assert(lines_view(out@) =~= lines_view(old(out)@) + capability_lines(e@));
    }
}

/// Appends the examples section, when there are examples.
fn push_examples(out: &mut Vec<Vec<Segment>>, e: &DocEntry)
    ensures
        lines_view(final(out)@) == lines_view(old(out)@) + examples_section(e@),
{
    if e.examples.len() == 0 {
        proof {
            assert(lines_view(out@) =~= lines_view(old(out)@) + examples_section(e@));
        }
        return;
    }
    push_line(out, line1(SpanStyle::Plain, String::new()));
    push_line(out, line1(SpanStyle::Label, String::from_str(EXAMPLES_LABEL)));
    let ghost start = lines_view(out@);
    let mut i: usize = 0;
    while i < e.examples.len()
        invariant
            i <= e.examples@.len(),
            lines_view(out@) == start + all_example_lines(e@.examples.take(i as int)),
        decreases e.examples@.len() - i,
    {
        let code = lines_of(e.examples[i].code.as_str());
        let expected = lines_of(e.examples[i].expected.as_str());
        let ghost before = lines_view(out@);
        push_prefixed(out, &code, SpanStyle::Code, INDENT);
        push_output(out, &expected);
        proof {
            let xs = e@.examples;
            assert(xs.take(i + 1).drop_last() =~= xs.take(i as int));
            assert(xs.take(i + 1).last() == xs[i as int]);
            assert(lines_view(out@) =~= start + all_example_lines(xs.take(i + 1)));
        }
        i = i + 1;
    }
    proof {
        assert(e@.examples.take(e@.examples.len() as int) == e@.examples);
        assert(lines_view(out@) =~= lines_view(old(out)@) + examples_section(e@));
    }
}

/// The detail view of an entry under the heading label `name_label`.
pub fn entry_detail_lines(e: &DocEntry, name_label: &str) -> (res: Vec<Vec<Segment>>)
    ensures
        lines_view(res@) == detail_spec(e@, name_label@),
{
    let mut out: Vec<Vec<Segment>> = Vec::new();
    push_heading(&mut out, e, name_label);
    proof {
        assert(lines_view(out@) =~= heading_lines(e@, name_label@));
    }
    push_description(&mut out, e);
    push_signature(&mut out, e);
    push_module(&mut out, e);
    push_capability(&mut out, e);
    push_examples(&mut out, e);
    out
}

} // verus!
