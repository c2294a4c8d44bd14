//! Character-sequence helpers shared by the renderers: joining, decimal
//! formatting, prefix and suffix tests, trimming, splitting and character removal.
use vstd::prelude::*;
use vstd::string::StringExecFns;

verus! {

/// The views of a sequence of strings.
pub open spec fn strings_view(v: Seq<String>) -> Seq<Seq<char>> {
    v.map_values(|s: String| s@)
}

/// `items` joined with `sep` between consecutive items; empty when `items` is empty.
pub open spec fn join(items: Seq<Seq<char>>, sep: Seq<char>) -> Seq<char>
    decreases items.len(),
{
    if items.len() == 0 {
        Seq::empty()
    } else if items.len() == 1 {
        items[0]
    } else {
        join(items.drop_last(), sep) + sep + items.last()
    }
}

/// The decimal digit for `d < 10`.
pub open spec fn digit_char(d: nat) -> char {
    if d == 0 { '0' }
    else if d == 1 { '1' }
    else if d == 2 { '2' }
    else if d == 3 { '3' }
    else if d == 4 { '4' }
    else if d == 5 { '5' }
    else if d == 6 { '6' }
    else if d == 7 { '7' }
    else if d == 8 { '8' }
    else { '9' }
}

/// The decimal representation of `n`, without leading zeros.
pub open spec fn decimal(n: nat) -> Seq<char>
    decreases n,
{
    if n < 10 {
        seq![digit_char(n)]
    } else {
        decimal(n / 10).push(digit_char(n % 10))
    }
}

/// `s` with every occurrence of `c` removed.
pub open spec fn remove_all(s: Seq<char>, c: char) -> Seq<char>
    decreases s.len(),
{
    if s.len() == 0 {
        Seq::empty()
    } else if s.last() == c {
        remove_all(s.drop_last(), c)
    } else {
        remove_all(s.drop_last(), c).push(s.last())
    }
}

/// `p` occurs in `s` at position `i`.
pub open spec fn occurs_at(s: Seq<char>, p: Seq<char>, i: int) -> bool {
    0 <= i && i + p.len() <= s.len() && s.subrange(i, i + p.len()) == p
}

/// `s` begins with `p`.
pub open spec fn has_prefix(s: Seq<char>, p: Seq<char>) -> bool {
    occurs_at(s, p, 0)
}

/// `s` ends with `p`.
pub open spec fn has_suffix(s: Seq<char>, p: Seq<char>) -> bool {
    occurs_at(s, p, s.len() - p.len())
}

/// `s` with every leading repetition of the non-empty pattern `p` removed.
pub open spec fn trim_start_all(s: Seq<char>, p: Seq<char>) -> Seq<char>
    decreases s.len(),
{
    if p.len() > 0 && has_prefix(s, p) {
        trim_start_all(s.skip(p.len() as int), p)
    } else {
        s
    }
}

/// `s` with every trailing repetition of the non-empty pattern `p` removed.
pub open spec fn trim_end_all(s: Seq<char>, p: Seq<char>) -> Seq<char>
    decreases s.len(),
{
    if p.len() > 0 && has_suffix(s, p) {
        trim_end_all(s.take(s.len() - p.len()), p)
    } else {
        s
    }
}

/// The pieces of `s[start..]` cut at the left-to-right, non-overlapping occurrences of
/// the non-empty separator `sep`, scanning from position `i` (the current piece began at `start`).
pub open spec fn split_from(s: Seq<char>, sep: Seq<char>, start: int, i: int) -> Seq<Seq<char>>
    decreases s.len() - i,
{
    if sep.len() == 0 || i < start || i + sep.len() > s.len() {
        seq![s.subrange(start, s.len() as int)]
    } else if occurs_at(s, sep, i) {
        seq![s.subrange(start, i)] + split_from(s, sep, i + sep.len(), i + sep.len())
    } else {
        split_from(s, sep, start, i + 1)
    }
}

/// `s` split at every left-to-right, non-overlapping occurrence of `sep`.
pub open spec fn split(s: Seq<char>, sep: Seq<char>) -> Seq<Seq<char>> {
    split_from(s, sep, 0, 0)
}

/// `p` occurs somewhere in `s`.
pub open spec fn contains_seq(s: Seq<char>, p: Seq<char>) -> bool {
    exists|i: int| occurs_at(s, p, i)
}

/// A sequence contains itself.
pub proof fn lemma_contains_self(p: Seq<char>)
    ensures
        contains_seq(p, p),
{
    assert(p.subrange(0, p.len() as int) =~= p);
    assert(occurs_at(p, p, 0));
}

/// What `b` contains, `a + b + c` contains too.
pub proof fn lemma_contains_in_concat(a: Seq<char>, b: Seq<char>, c: Seq<char>, p: Seq<char>)
    requires
        contains_seq(b, p),
    ensures
        contains_seq(a + b + c, p),
{
    let i = choose|i: int| occurs_at(b, p, i);
    let whole = a + b + c;
    assert(whole.subrange(a.len() + i, a.len() + i + p.len()) =~= b.subrange(i, i + p.len()));
    assert(occurs_at(whole, p, a.len() + i));
}

/// The lower-case form of `s`, as `str::to_lowercase` computes it (Unicode
/// `Lowercase` mapping).
pub uninterp spec fn lowercase(s: Seq<char>) -> Seq<char>;

/// `str::to_lowercase`.
#[verifier::external_body]
pub(crate) fn to_lowercase(s: &str) -> (res: String)
    ensures
        res@ == lowercase(s@),
        s@.len() == 0 ==> res@.len() == 0,
{
    s.to_lowercase()
}

/// Whether `c` has the Unicode `White_Space` property, as `char::is_whitespace`
/// and `str::trim` read it: tab, line feed, vertical tab, form feed, carriage
/// return, space, next line, no-break space, ogham space mark, the spaces from
/// en quad to hair space, line and paragraph separators, narrow no-break space,
/// medium mathematical space and ideographic space.
pub open spec fn is_white_space(c: char) -> bool {
    let n = c as u32;
    (0x9 <= n <= 0xd) || n == 0x20 || n == 0x85 || n == 0xa0 || n == 0x1680 || (0x2000 <= n <= 0x200a)
        || n == 0x2028 || n == 0x2029 || n == 0x202f || n == 0x205f || n == 0x3000
}

/// `s` without its leading white space.
pub open spec fn trim_start_ws(s: Seq<char>) -> Seq<char>
    decreases s.len(),
{
    if s.len() > 0 && is_white_space(s[0]) {
        trim_start_ws(s.skip(1))
    } else {
        s
    }
}

/// `s` without its trailing white space.
pub open spec fn trim_end_ws(s: Seq<char>) -> Seq<char>
    decreases s.len(),
{
    if s.len() > 0 && is_white_space(s.last()) {
        trim_end_ws(s.drop_last())
    } else {
        s
    }
}

/// `s` without its leading and trailing white space (`str::trim`).
pub open spec fn trim_ws(s: Seq<char>) -> Seq<char> {
    trim_end_ws(trim_start_ws(s))
}

/// Whether `c` is white space.
pub fn white_space(c: char) -> (res: bool)
    ensures
        res == is_white_space(c),
{
    let n = c as u32;
    (0x9 <= n && n <= 0xd) || n == 0x20 || n == 0x85 || n == 0xa0 || n == 0x1680 || (0x2000 <= n && n <= 0x200a)
        || n == 0x2028 || n == 0x2029 || n == 0x202f || n == 0x205f || n == 0x3000
}

/// `s` without its leading and trailing white space (`str::trim`).
pub fn trim(s: &str) -> (res: String)
    ensures
        res@ == trim_ws(s@),
{
    let cs = chars_of(s);
    let mut lo: usize = 0;
    proof {
        assert(cs@.subrange(0, cs@.len() as int) =~= s@);
    }
    while lo < cs.len() && white_space(cs[lo])
        invariant
            lo <= cs@.len(),
            cs@ == s@,
            trim_start_ws(s@) == trim_start_ws(cs@.subrange(lo as int, cs@.len() as int)),
        decreases cs@.len() - lo,
    {
        proof {
            let rest = cs@.subrange(lo as int, cs@.len() as int);
            assert(rest.skip(1) =~= cs@.subrange(lo + 1, cs@.len() as int));
        }
        lo = lo + 1;
    }
    let mut hi: usize = cs.len();
    proof {
        assert(cs@.subrange(lo as int, cs@.len() as int) =~= cs@.subrange(lo as int, hi as int));
    }
    while hi > lo && white_space(cs[hi - 1])
        invariant
            lo <= hi <= cs@.len(),
            cs@ == s@,
            trim_ws(s@) == trim_end_ws(cs@.subrange(lo as int, hi as int)),
        decreases hi - lo,
    {
        proof {
            let part = cs@.subrange(lo as int, hi as int);
            assert(part.drop_last() =~= cs@.subrange(lo as int, hi - 1));
        }
        hi = hi - 1;
    }
    string_of_range(&cs, lo, hi)
}

/// Appends `c` to `s` (`String::push`).
#[verifier::external_body]
pub(crate) fn push_char(s: &mut String, c: char)
    ensures
        final(s)@ == old(s)@.push(c),
{
    s.push(c);
}

/// Removes the last character of `s` and returns it; `None`, leaving `s` as it
/// is, when `s` is empty (`String::pop`).
#[verifier::external_body]
pub(crate) fn pop_char(s: &mut String) -> (res: Option<char>)
    ensures
        old(s)@.len() == 0 ==> res is None && final(s)@ == old(s)@,
        old(s)@.len() > 0 ==> res == Some(old(s)@.last()) && final(s)@ == old(s)@.drop_last(),
{
    s.pop()
}

/// `t` without one trailing carriage return.
pub open spec fn strip_cr(t: Seq<char>) -> Seq<char> {
    if t.len() > 0 && t.last() == '\r' {
        t.drop_last()
    } else {
        t
    }
}

/// The lines of `s` from position `start`, where the current line began at
/// `start` and `i` is the next character to look at.
pub open spec fn lines_from(s: Seq<char>, start: int, i: int) -> Seq<Seq<char>>
    decreases s.len() - i,
{
    if !(0 <= start <= i < s.len()) {
        if 0 <= start < s.len() {
            seq![s.subrange(start, s.len() as int)]
        } else {
            Seq::empty()
        }
    } else if s[i] == '\n' {
        seq![strip_cr(s.subrange(start, i))] + lines_from(s, i + 1, i + 1)
    } else {
        lines_from(s, start, i + 1)
    }
}

/// The lines of `s` (`str::lines`): the pieces between line feeds, each without
/// its line feed and a carriage return before it; a last piece without a line
/// feed keeps any carriage return, and nothing follows a final line feed.
pub open spec fn lines(s: Seq<char>) -> Seq<Seq<char>> {
    lines_from(s, 0, 0)
}

/// The lines of `s` (`str::lines`).
pub fn lines_of(s: &str) -> (res: Vec<String>)
    ensures
        strings_view(res@) == lines(s@),
{
    let cs = chars_of(s);
    let mut out: Vec<String> = Vec::new();
    let mut start: usize = 0;
    let mut i: usize = 0;
    while i < cs.len()
        invariant
            cs@ == s@,
            start <= i <= cs@.len(),
            strings_view(out@) + lines_from(cs@, start as int, i as int) == lines(cs@),
        decreases cs@.len() - i,
    {
        if cs[i] == '\n' {
            let end = if i > start && cs[i - 1] == '\r' { i - 1 } else { i };
            let line = string_of_range(&cs, start, end);
            proof {
                let rest = lines_from(cs@, i + 1, i + 1);
                assert(line@ == strip_cr(cs@.subrange(start as int, i as int)));
                assert(strings_view(out@.push(line)) =~= strings_view(out@).push(line@));
                assert(strings_view(out@) + (seq![line@] + rest) =~= strings_view(out@).push(line@) + rest);
            }
            out.push(line);
            start = i + 1;
        }
        i = i + 1;
    }
    if start < cs.len() {
        let line = string_of_range(&cs, start, cs.len());
        proof {
            assert(strings_view(out@.push(line)) =~= strings_view(out@).push(line@));
            assert(strings_view(out@) + seq![line@] =~= strings_view(out@).push(line@));
        }
        out.push(line);
    } else {
        proof {
            assert(strings_view(out@) + Seq::<Seq<char>>::empty() =~= strings_view(out@));
        }
    }
    out
}

/// The characters of `s`.
pub fn chars_of(s: &str) -> (res: Vec<char>)
    ensures
        res@ == s@,
{
    let mut out: Vec<char> = Vec::new();
    for c in it: s.chars()
        invariant
            it.seq() == s@,
            out@ == s@.take(it.index() as int),
    {
        out.push(c);
        proof {
            assert(s@.take(it.index() + 1) == s@.take(it.index() as int).push(c));
        }
    }
    proof {
        assert(s@.take(s@.len() as int) == s@);
    }
    out
}

/// Appends `cs[lo..hi]` to `out`.
pub fn push_range(out: &mut String, cs: &Vec<char>, lo: usize, hi: usize)
    requires
        lo <= hi <= cs.len(),
    ensures
        final(out)@ == old(out)@ + cs@.subrange(lo as int, hi as int),
{
    let mut i = lo;
    while i < hi
        invariant
            lo <= i <= hi <= cs.len(),
            out@ == old(out)@ + cs@.subrange(lo as int, i as int),
        decreases hi - i,
    {
        push_char(out, cs[i]);
        proof {
            assert(cs@.subrange(lo as int, i + 1) == cs@.subrange(lo as int, i as int).push(cs@[i as int]));
        }
        i = i + 1;
    }
}

/// A string holding `cs[lo..hi]`.
pub fn string_of_range(cs: &Vec<char>, lo: usize, hi: usize) -> (res: String)
    requires
        lo <= hi <= cs.len(),
    ensures
        res@ == cs@.subrange(lo as int, hi as int),
{
    let mut out = String::new();
    push_range(&mut out, cs, lo, hi);
    out
}

proof fn lemma_join_push(items: Seq<Seq<char>>, x: Seq<char>, sep: Seq<char>)
    requires
        items.len() > 0,
    ensures
        join(items.push(x), sep) == join(items, sep) + sep + x,
{
    assert(items.push(x).drop_last() == items);
}

/// Joining two non-empty lists one after the other joins each and puts the
/// separator between them.
pub proof fn lemma_join_concat(a: Seq<Seq<char>>, b: Seq<Seq<char>>, sep: Seq<char>)
    requires
        a.len() > 0,
        b.len() > 0,
    ensures
        join(a + b, sep) == join(a, sep) + sep + join(b, sep),
    decreases b.len(),
{
    if b.len() == 1 {
        assert((a + b).drop_last() =~= a);
        assert((a + b).last() == b[0]);
    } else {
        lemma_join_concat(a, b.drop_last(), sep);
        assert((a + b).drop_last() =~= a + b.drop_last());
        assert((a + b).last() == b.last());
        assert(join(a, sep) + sep + join(b.drop_last(), sep) + sep + b.last() =~= join(a, sep) + sep + (join(
            b.drop_last(),
            sep,
        ) + sep + b.last()));
    }
}

/// `items` joined with `sep`.
pub fn join_strings(items: &Vec<String>, sep: &str) -> (res: String)
    ensures
        res@ == join(strings_view(items@), sep@),
{
    let mut out = String::new();
    let mut i: usize = 0;
    while i < items.len()
        invariant
            i <= items.len(),
            out@ == join(strings_view(items@.take(i as int)), sep@),
        decreases items.len() - i,
    {
        let ghost prev = strings_view(items@.take(i as int));
        proof {
            assert(strings_view(items@.take(i + 1)) == prev.push(items@[i as int]@));
        }
        if i > 0 {
            out.append(sep);
            proof {
                lemma_join_push(prev, items@[i as int]@, sep@);
            }
        } else {
            proof {
                assert(prev.push(items@[i as int]@).len() == 1);
            }
        }
        out.append(items[i].as_str());
        i = i + 1;
    }
    proof {
        assert(items@.take(items@.len() as int) == items@);
    }
    out
}

/// The decimal digit character for `d < 10`.
fn digit(d: usize) -> (c: char)
    requires
        d < 10,
    ensures
        c == digit_char(d as nat),
{
    if d == 0 { '0' }
    else if d == 1 { '1' }
    else if d == 2 { '2' }
    else if d == 3 { '3' }
    else if d == 4 { '4' }
    else if d == 5 { '5' }
    else if d == 6 { '6' }
    else if d == 7 { '7' }
    else if d == 8 { '8' }
    else { '9' }
}

/// The decimal representation of `n`.
pub fn decimal_string(n: usize) -> (res: String)
    ensures
        res@ == decimal(n as nat),
    decreases n,
{
    if n < 10 {
        let mut out = String::new();
        push_char(&mut out, digit(n));
        proof {
            assert(out@ == seq![digit_char(n as nat)]);
        }
        out
    } else {
        let mut out = decimal_string(n / 10);
        push_char(&mut out, digit(n % 10));
        out
    }
}

/// Whether `p` occurs in `s` at position `i`.
pub fn occurs_at_index(s: &Vec<char>, p: &Vec<char>, i: usize) -> (res: bool)
    ensures
        res == occurs_at(s@, p@, i as int),
{
    if i > s.len() || p.len() > s.len() - i {
        return false;
    }
    let mut k: usize = 0;
    while k < p.len()
        invariant
            i + p.len() <= s.len(),
            k <= p.len(),
            forall|j: int| 0 <= j < k ==> s@[i + j] == p@[j],
        decreases p.len() - k,
    {
        if s[i + k] != p[k] {
            proof {
                assert(s@.subrange(i as int, i + p.len())[k as int] != p@[k as int]);
            }
            return false;
        }
        k = k + 1;
    }
    proof {
        assert(s@.subrange(i as int, i + p.len()) =~= p@);
    }
    true
}

/// Whether `s` begins with `p` (`str::starts_with`).
pub fn starts_with(s: &str, p: &str) -> (res: bool)
    ensures
        res == has_prefix(s@, p@),
{
    let cs = chars_of(s);
    let ps = chars_of(p);
    occurs_at_index(&cs, &ps, 0)
}

/// `s` with every `c` removed (`str::replace(c, "")`).
pub fn remove_char(s: &str, c: char) -> (res: String)
    ensures
        res@ == remove_all(s@, c),
{
    let mut out = String::new();
    for x in it: s.chars()
        invariant
            it.seq() == s@,
            out@ == remove_all(s@.take(it.index() as int), c),
    {
        proof {
            assert(s@.take(it.index() + 1).drop_last() == s@.take(it.index() as int));
        }
        if x != c {
            push_char(&mut out, x);
        }
    }
    proof {
        assert(s@.take(s@.len() as int) == s@);
    }
    out
}

/// The position from which `cs[lo..]` no longer begins with the non-empty `p`,
/// after removing every leading repetition of `p`.
pub fn trim_start_index(cs: &Vec<char>, lo: usize, p: &Vec<char>) -> (res: usize)
    requires
        lo <= cs.len(),
    ensures
        lo <= res <= cs.len(),
        cs@.subrange(res as int, cs.len() as int) == trim_start_all(cs@.subrange(lo as int, cs.len() as int), p@),
{
    let mut i = lo;
    if p.len() == 0 {
        return lo;
    }
    while occurs_at_index(cs, p, i)
        invariant
            lo <= i <= cs.len(),
            p.len() > 0,
            trim_start_all(cs@.subrange(lo as int, cs.len() as int), p@)
                == trim_start_all(cs@.subrange(i as int, cs.len() as int), p@),
        decreases cs.len() - i,
    {
        proof {
            let rest = cs@.subrange(i as int, cs.len() as int);
            assert(rest.take(p.len() as int) == cs@.subrange(i as int, i + p.len()));
            assert(rest.skip(p.len() as int) == cs@.subrange(i + p.len(), cs.len() as int));
        }
        i = i + p.len();
    }
    proof {
        let rest = cs@.subrange(i as int, cs.len() as int);
        if has_prefix(rest, p@) {
            assert(rest.subrange(0, p.len() as int) == cs@.subrange(i as int, i + p.len()));
        }
    }
    i
}

/// The end of `cs[lo..hi]` after removing every trailing repetition of the non-empty `p`.
pub fn trim_end_index(cs: &Vec<char>, lo: usize, hi: usize, p: &Vec<char>) -> (res: usize)
    requires
        lo <= hi <= cs.len(),
    ensures
        lo <= res <= hi,
        cs@.subrange(lo as int, res as int) == trim_end_all(cs@.subrange(lo as int, hi as int), p@),
{
    let mut j = hi;
    if p.len() == 0 {
        return hi;
    }
    while p.len() <= j - lo && occurs_at_index(cs, p, j - p.len())
        invariant
            lo <= j <= hi <= cs.len(),
            p.len() > 0,
            trim_end_all(cs@.subrange(lo as int, hi as int), p@)
                == trim_end_all(cs@.subrange(lo as int, j as int), p@),
        decreases j - lo,
    {
        proof {
            let part = cs@.subrange(lo as int, j as int);
            let n = part.len() - p.len();
            assert(part.subrange(n, n + p.len()) == cs@.subrange(j - p.len(), j as int));
            assert(part.take(n) == cs@.subrange(lo as int, j - p.len()));
        }
        j = j - p.len();
    }
    proof {
        let part = cs@.subrange(lo as int, j as int);
        if has_suffix(part, p@) {
            let n = part.len() - p.len();
            assert(part.subrange(n, n + p.len()) == cs@.subrange(j - p.len(), j as int));
        }
    }
    j
}

/// The pieces of `s` cut at the left-to-right, non-overlapping occurrences of `sep`
/// (`str::split` with a string pattern).
pub fn split_chars(s: &Vec<char>, sep: &Vec<char>) -> (res: Vec<Vec<char>>)
    requires
        sep.len() > 0,
    ensures
        res@.map_values(|v: Vec<char>| v@) == split(s@, sep@),
{
    let mut parts: Vec<Vec<char>> = Vec::new();
    let mut start: usize = 0;
    let mut i: usize = 0;
    while i < s.len() && sep.len() <= s.len() - i
        invariant
            start <= i <= s.len(),
            sep.len() > 0,
            parts@.map_values(|v: Vec<char>| v@) + split_from(s@, sep@, start as int, i as int)
                == split(s@, sep@),
        decreases s.len() - i,
    {
        if occurs_at_index(s, sep, i) {
            let mut piece: Vec<char> = Vec::new();
            let mut k = start;
            while k < i
                invariant
                    start <= k <= i <= s.len(),
                    piece@ == s@.subrange(start as int, k as int),
                decreases i - k,
            {
                piece.push(s[k]);
                proof {
                    assert(s@.subrange(start as int, k + 1) == s@.subrange(start as int, k as int).push(s@[k as int]));
                }
                k = k + 1;
            }
            let ghost before = parts@.map_values(|v: Vec<char>| v@);
            parts.push(piece);
            proof {
                assert(parts@.map_values(|v: Vec<char>| v@) == before.push(s@.subrange(start as int, i as int)));
                assert(before + split_from(s@, sep@, start as int, i as int)
                    == before.push(s@.subrange(start as int, i as int))
                        + split_from(s@, sep@, (i + sep.len()) as int, (i + sep.len()) as int));
            }
            i = i + sep.len();
            start = i;
        } else {
            i = i + 1;
        }
    }
    let mut piece: Vec<char> = Vec::new();
    let mut k = start;
    while k < s.len()
        invariant
            start <= k <= s.len(),
            piece@ == s@.subrange(start as int, k as int),
        decreases s.len() - k,
    {
        piece.push(s[k]);
        proof {
            assert(s@.subrange(start as int, k + 1) == s@.subrange(start as int, k as int).push(s@[k as int]));
        }
        k = k + 1;
    }
    let ghost before = parts@.map_values(|v: Vec<char>| v@);
    parts.push(piece);
    proof {
        assert(parts@.map_values(|v: Vec<char>| v@) == before.push(s@.subrange(start as int, s.len() as int)));
        assert(split_from(s@, sep@, start as int, i as int) == seq![s@.subrange(start as int, s.len() as int)]);
        assert(before.push(s@.subrange(start as int, s.len() as int)) == before + seq![s@.subrange(start as int, s.len() as int)]);
    }
    parts
}

} // verus!
