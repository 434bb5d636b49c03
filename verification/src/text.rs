//! Text helpers shared by the rest of the crate: what the filter means by
//! "contains", and the few string operations of the standard library that the
//! crate relies on.

use std::io::Write;
use tabwriter::TabWriter;
use vstd::prelude::*;
use vstd::string::StringExecFns;

verus! {

/// `needle` occurs in `hay` as a contiguous run of characters starting at `at`.
pub open spec fn occurs_at(hay: Seq<char>, needle: Seq<char>, at: int) -> bool {
    &&& 0 <= at
    &&& at + needle.len() <= hay.len()
    &&& hay.subrange(at, at + needle.len()) == needle
}

/// `needle` occurs somewhere in `hay`.
pub open spec fn is_substring(hay: Seq<char>, needle: Seq<char>) -> bool {
    exists|at: int| occurs_at(hay, needle, at)
}

/// Every sequence contains the empty one.
pub proof fn lemma_empty_is_substring(hay: Seq<char>, needle: Seq<char>)
    requires
        needle.len() == 0,
    ensures
        is_substring(hay, needle),
{
    assert(hay.subrange(0, 0) =~= needle);
    assert(occurs_at(hay, needle, 0));
}

/// `s` with every leftmost, non-overlapping occurrence of `from` replaced by
/// `to`. An empty `from` replaces nothing.
pub open spec fn replaced(s: Seq<char>, from: Seq<char>, to: Seq<char>) -> Seq<char>
    decreases s.len(),
{
    if from.len() == 0 || s.len() < from.len() {
        s
    } else if s.subrange(0, from.len() as int) == from {
        to + replaced(s.subrange(from.len() as int, s.len() as int), from, to)
    } else {
        seq![s[0]] + replaced(s.subrange(1, s.len() as int), from, to)
    }
}

/// The lowercase form of a string, as `str::to_lowercase` computes it.
pub uninterp spec fn lowered(s: Seq<char>) -> Seq<char>;

/// The uppercase form of a string, as `str::to_uppercase` computes it.
pub uninterp spec fn uppered(s: Seq<char>) -> Seq<char>;

/// Whether a character is whitespace, as `char::is_whitespace` and
/// `str::trim` take it: the characters with the Unicode property White_Space.
pub uninterp spec fn whitespace(c: char) -> bool;

/// A text without the whitespace in front of it.
pub open spec fn trim_start(s: Seq<char>) -> Seq<char>
    decreases s.len(),
{
    if s.len() > 0 && whitespace(s[0]) {
        trim_start(s.drop_first())
    } else {
        s
    }
}

/// A text without the whitespace at its end.
pub open spec fn trim_end(s: Seq<char>) -> Seq<char>
    decreases s.len(),
{
    if s.len() > 0 && whitespace(s.last()) {
        trim_end(s.drop_last())
    } else {
        s
    }
}

/// A text without the whitespace at both ends.
pub open spec fn trimmed(s: Seq<char>) -> Seq<char> {
    trim_end(trim_start(s))
}

/// A line without the carriage return that may end it.
pub open spec fn without_return(line: Seq<char>) -> Seq<char> {
    if line.len() > 0 && line.last() == '\r' {
        line.drop_last()
    } else {
        line
    }
}

/// The lines of a text: it is cut at every line feed; a line that a line
/// feed ends loses the carriage return before it; what follows the last line
/// feed is a line only if it is not empty.
pub open spec fn lines_of(s: Seq<char>) -> Seq<Seq<char>> {
    let parts = pieces(s, '\n');
    let ended = parts.drop_last().map_values(|line: Seq<char>| without_return(line));
    if parts.last().len() == 0 {
        ended
    } else {
        ended.push(parts.last())
    }
}

/// The view of a string that may be missing.
pub open spec fn option_view(s: Option<String>) -> Option<Seq<char>> {
    match s {
        Some(s) => Some(s@),
        None => None,
    }
}

/// The views of a sequence of strings.
pub open spec fn string_views(v: Seq<String>) -> Seq<Seq<char>> {
    v.map_values(|s: String| s@)
}

/// Calls `str::to_lowercase`. The result is the lowercase form of `s`; of the
/// empty string it is the empty string.
#[verifier::external_body]
pub(crate) fn to_lowercase(s: &str) -> (out: String)
    ensures
        out@ == lowered(s@),
        s@.len() == 0 ==> out@.len() == 0,
{
    s.to_lowercase()
}

/// Calls `str::to_uppercase`. The result is the uppercase form of `s`.
#[verifier::external_body]
pub(crate) fn to_uppercase(s: &str) -> (out: String)
    ensures
        out@ == uppered(s@),
{
    s.to_uppercase()
}

/// Calls `str::trim`. The result is `s` without the whitespace at both
/// ends, so that it neither begins nor ends with whitespace.
#[verifier::external_body]
pub(crate) fn trim(s: &str) -> (out: String)
    ensures
        out@ == trimmed(s@),
        out@.len() > 0 ==> !whitespace(out@[0]) && !whitespace(out@.last()),
{
    s.trim().to_string()
}

/// Calls `str::contains` with a string pattern: true exactly when `needle`
/// occurs in `hay`.
#[verifier::external_body]
pub(crate) fn contains(hay: &str, needle: &str) -> (found: bool)
    ensures
        found == is_substring(hay@, needle@),
{
    hay.contains(needle)
}

/// Calls `str::replace` with a non-empty string pattern: each leftmost,
/// non-overlapping occurrence of `from` becomes `to`.
#[verifier::external_body]
pub(crate) fn replace(s: &str, from: &str, to: &str) -> (out: String)
    requires
        from@.len() > 0,
    ensures
        out@ == replaced(s@, from@, to@),
{
    s.replace(from, to)
}

/// Calls `str::lines` and collects what it yields: the text cut at its line
/// endings, which are not part of the lines.
#[verifier::external_body]
pub(crate) fn lines(s: &str) -> (out: Vec<String>)
    ensures
        string_views(out@) == lines_of(s@),
{
    s.lines().map(String::from).collect()
}

/// A text with its tab-separated columns padded to a common width, as
/// `tabwriter::TabWriter` writes it out with its default settings.
pub uninterp spec fn tab_aligned(text: Seq<char>) -> Seq<char>;

/// Writes `text` through a `tabwriter::TabWriter` into a buffer and hands the
/// buffer back: the text with the cells of each column block padded to one width.
#[verifier::external_body]
pub(crate) fn align_tabs(text: &str) -> (out: String)
    ensures
        out@ == tab_aligned(text@),
{
    let mut writer = TabWriter::new(vec![]);
    write!(writer, "{}", text).unwrap();
    String::from_utf8(writer.into_inner().unwrap()).unwrap()
}

/// The pieces of `s` between the occurrences of `sep`: one piece more than
/// there are occurrences.
pub open spec fn pieces(s: Seq<char>, sep: char) -> Seq<Seq<char>>
    decreases s.len(),
{
    if s.len() == 0 {
        seq![Seq::empty()]
    } else if s[0] == sep {
        seq![Seq::empty()] + pieces(s.drop_first(), sep)
    } else {
        let rest = pieces(s.drop_first(), sep);
        seq![seq![s[0]] + rest[0]] + rest.drop_first()
    }
}

/// Calls `str::split` with a character and collects the pieces.
#[verifier::external_body]
pub(crate) fn split(s: &str, sep: char) -> (out: Vec<String>)
    ensures
        string_views(out@) == pieces(s@, sep),
{
    s.split(sep).map(String::from).collect()
}

/// Calls `String::push`: `c` is appended.
#[verifier::external_body]
pub(crate) fn push_char(s: &mut String, c: char)
    ensures
        final(s)@ == old(s)@.push(c),
{
    s.push(c)
}

/// Calls `String::pop`: the last character is removed and returned, if there is one.
#[verifier::external_body]
pub(crate) fn pop_char(s: &mut String) -> (last: Option<char>)
    ensures
        old(s)@.len() == 0 ==> last == None::<char> && final(s)@ == old(s)@,
        old(s)@.len() > 0 ==> last == Some(old(s)@.last()) && final(s)@ == old(s)@.drop_last(),
{
    s.pop()
}

/// The parts one after the other, with `sep` between each two.
pub open spec fn joined(parts: Seq<Seq<char>>, sep: Seq<char>) -> Seq<char>
    decreases parts.len(),
{
    if parts.len() == 0 {
        Seq::empty()
    } else if parts.len() == 1 {
        parts[0]
    } else {
        joined(parts.drop_last(), sep) + sep + parts.last()
    }
}

/// Puts the parts one after the other, with `sep` between each two.
pub fn join(parts: &Vec<String>, sep: &str) -> (out: String)
    ensures
        out@ == joined(string_views(parts@), sep@),
{
    let ghost views = string_views(parts@);
    let mut out = String::new();
    let mut i: usize = 0;
    assert(views.take(0) =~= Seq::<Seq<char>>::empty());
    while i < parts.len()
        invariant
            i <= parts.len(),
            views == string_views(parts@),
            out@ == joined(views.take(i as int), sep@),
        decreases parts.len() - i,
    {
        proof {
            let upto = views.take(i + 1);
            assert(upto.drop_last() =~= views.take(i as int));
            assert(upto.last() == parts@[i as int]@);
        }
        if i > 0 {
            out.append(sep);
        }
        out.append(parts[i].as_str());
        assert(out@ =~= joined(views.take(i + 1), sep@));
        i += 1;
    }
    assert(views.take(parts.len() as int) =~= views);
    out
}

/// Three fields joined by single spaces.
pub open spec fn spaced3(a: Seq<char>, b: Seq<char>, c: Seq<char>) -> Seq<char> {
    a + seq![' '] + b + seq![' '] + c
}

/// Joins three fields with single spaces.
pub fn join3(a: &str, b: &str, c: &str) -> (out: String)
    ensures
        out@ == spaced3(a@, b@, c@),
{
    proof {
        reveal_strlit(" ");
    }
    let mut out = String::from_str(a);
    out.append(" ");
    out.append(b);
    out.append(" ");
    out.append(c);
    assert(" "@ =~= seq![' ']);
    out
}

} // verus!
