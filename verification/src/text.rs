//! Splitting text on a separator and into lines.

use vstd::prelude::*;

verus! {

/// `pat` occurs in `s` beginning at index `i`.
pub open spec fn matches_at(s: Seq<char>, pat: Seq<char>, i: int) -> bool {
    &&& 0 <= i
    &&& i + pat.len() <= s.len()
    &&& s.subrange(i, i + pat.len()) == pat
}

/// `pat` occurs somewhere in `s`.
pub open spec fn occurs(s: Seq<char>, pat: Seq<char>) -> bool {
    exists|i: int| matches_at(s, pat, i)
}

/// `i` is where the leftmost occurrence of `pat` in `s` begins.
pub open spec fn is_first_match(s: Seq<char>, pat: Seq<char>, i: int) -> bool {
    &&& matches_at(s, pat, i)
    &&& forall|j: int| 0 <= j < i ==> !matches_at(s, pat, j)
}

/// Where the leftmost occurrence of `pat` in `s` begins, if there is one.
pub open spec fn first_match(s: Seq<char>, pat: Seq<char>) -> Option<int> {
    if exists|i: int| is_first_match(s, pat, i) {
        Some(choose|i: int| is_first_match(s, pat, i))
    } else {
        None
    }
}

/// Among the occurrences of `pat` in `s`, where there are any, one is the
/// leftmost.
proof fn lemma_leftmost_exists(s: Seq<char>, pat: Seq<char>, i: int)
    requires
        matches_at(s, pat, i),
    ensures
        exists|j: int| is_first_match(s, pat, j),
    decreases i,
{
    if forall|j: int| 0 <= j < i ==> !matches_at(s, pat, j) {
        assert(is_first_match(s, pat, i));
    } else {
        let j = choose|j: int| 0 <= j < i && matches_at(s, pat, j);
        lemma_leftmost_exists(s, pat, j);
    }
}

/// `first_match` is `None` exactly for a text in which `pat` does not occur.
pub proof fn lemma_first_match_none(s: Seq<char>, pat: Seq<char>)
    ensures
        first_match(s, pat) is None <==> !occurs(s, pat),
{
    if occurs(s, pat) {
        let i = choose|i: int| matches_at(s, pat, i);
        lemma_leftmost_exists(s, pat, i);
    }
}

/// `first_match` is `Some(i)` exactly where `i` begins the leftmost
/// occurrence of `pat` in `s`.
pub proof fn lemma_first_match_some(s: Seq<char>, pat: Seq<char>, i: int)
    ensures
        first_match(s, pat) == Some(i) <==> is_first_match(s, pat, i),
{
}

/// The fields of `s`: the text before the leftmost occurrence of the
/// separator `pat`, followed by the fields of the text after it. A text
/// without the separator is a single field.
pub open spec fn split_on(s: Seq<char>, pat: Seq<char>) -> Seq<Seq<char>>
    recommends
        pat.len() > 0,
    decreases s.len(),
{
    if pat.len() == 0 {
        seq![s]
    } else {
        match first_match(s, pat) {
            Some(i) => seq![s.take(i)] + split_on(s.skip(i + pat.len()), pat),
            None => seq![s],
        }
    }
}

/// Every text has a field.
pub proof fn lemma_split_on_has_a_field(s: Seq<char>, pat: Seq<char>)
    ensures
        split_on(s, pat).len() >= 1,
{
}

/// The line feed that ends a line.
pub open spec fn line_feed() -> Seq<char> {
    seq!['\n']
}

/// `line` without the carriage return at its end, if it has one.
pub open spec fn strip_cr(line: Seq<char>) -> Seq<char> {
    if line.len() > 0 && line.last() == '\r' {
        line.drop_last()
    } else {
        line
    }
}

/// The lines of `s`. A line ends at a line feed, and a carriage return
/// directly before that line feed belongs to the line ending too. The last
/// line need not be ended; what follows the last line feed is a line only if
/// it is not empty.
pub open spec fn lines_of(s: Seq<char>) -> Seq<Seq<char>>
    decreases s.len(),
{
    if s.len() == 0 {
        Seq::empty()
    } else {
        match first_match(s, line_feed()) {
            Some(i) => seq![strip_cr(s.take(i))] + lines_of(s.skip(i + 1)),
            None => seq![s],
        }
    }
}

/// What each string of `v` holds, in order.
pub open spec fn texts(v: Seq<String>) -> Seq<Seq<char>> {
    Seq::new(v.len(), |i: int| v[i]@)
}

/// Whether `pat` occurs in the text shifted by `start` is whether it occurs
/// in the whole text that much further on.
proof fn lemma_match_in_suffix(s: Seq<char>, pat: Seq<char>, start: int, k: int)
    requires
        0 <= start <= s.len(),
        0 <= k,
    ensures
        matches_at(s.skip(start), pat, k) == matches_at(s, pat, start + k),
{
    if start + k + pat.len() <= s.len() {
        assert(s.skip(start).subrange(k, k + pat.len()) =~= s.subrange(
            start + k,
            start + k + pat.len(),
        ));
    }
}

/// An occurrence at `i` with none in `start..i` is the leftmost one of the
/// text from `start` on.
proof fn lemma_first_match_in_suffix(s: Seq<char>, pat: Seq<char>, start: int, i: int)
    requires
        0 <= start <= i,
        matches_at(s, pat, i),
        forall|j: int| start <= j < i ==> !matches_at(s, pat, j),
    ensures
        first_match(s.skip(start), pat) == Some(i - start),
{
    let t = s.skip(start);
    lemma_match_in_suffix(s, pat, start, i - start);
    assert forall|j: int| 0 <= j < i - start implies !matches_at(t, pat, j) by {
        lemma_match_in_suffix(s, pat, start, j);
    }
    lemma_first_match_some(t, pat, i - start);
}

/// With no occurrence from `start` on, the text from `start` on has none.
proof fn lemma_no_match_in_suffix(s: Seq<char>, pat: Seq<char>, start: int)
    requires
        0 <= start <= s.len(),
        forall|j: int| start <= j ==> !matches_at(s, pat, j),
    ensures
        first_match(s.skip(start), pat) is None,
{
    assert forall|k: int| !is_first_match(s.skip(start), pat, k) by {
        if 0 <= k {
            lemma_match_in_suffix(s, pat, start, k);
        }
    }
}

/// The characters of `s`, for indexing in constant time.
fn chars_of(s: &str) -> (v: Vec<char>)
    ensures
        v@ == s@,
{
    let mut v: Vec<char> = Vec::new();
    for c in it: s.chars()
        invariant
            it.seq() == s@,
            v@ == it.seq().take(it.index()),
    {
        v.push(c);
    }
    v
}

/// Whether `pat` occurs in `s` beginning at `i`.
fn occurs_at(s: &Vec<char>, pat: &Vec<char>, i: usize) -> (r: bool)
    requires
        i + pat.len() <= s.len(),
    ensures
        r == matches_at(s@, pat@, i as int),
{
    let mut k: usize = 0;
    while k < pat.len()
        invariant
            k <= pat.len(),
            i + pat.len() <= s.len(),
            forall|m: int| 0 <= m < k ==> s@[i + m] == pat@[m],
        decreases pat.len() - k,
    {
        if s[i + k] != pat[k] {
            return false;
        }
        k += 1;
    }
    assert(s@.subrange(i as int, i + pat.len()) =~= pat@);
    true
}

/// The first occurrence of `pat` in `s` that begins at `start` or later.
fn find_from(s: &Vec<char>, pat: &Vec<char>, start: usize) -> (r: Option<usize>)
    requires
        start <= s.len(),
        pat.len() > 0,
    ensures
        match r {
            Some(i) => {
                &&& start <= i
                &&& matches_at(s@, pat@, i as int)
                &&& forall|j: int| start <= j < i ==> !matches_at(s@, pat@, j)
            },
            None => forall|j: int| start <= j ==> !matches_at(s@, pat@, j),
        },
{
    let mut i: usize = start;
    while s.len() - i >= pat.len()
        invariant
            start <= i <= s.len(),
            pat.len() > 0,
            forall|j: int| start <= j < i ==> !matches_at(s@, pat@, j),
        decreases s.len() - i,
    {
        if occurs_at(s, pat, i) {
            return Some(i);
        }
        i += 1;
    }
    None
}

/// Splits `line` on the separator `pat`.
pub(crate) fn split(line: &str, pat: &str) -> (fields: Vec<String>)
    requires
        pat@.len() > 0,
    ensures
        texts(fields@) == split_on(line@, pat@),
{
    let s = chars_of(line);
    let p = chars_of(pat);
    let mut fields: Vec<String> = Vec::new();
    let mut start: usize = 0;
    assert(line@.skip(0) =~= line@);
    loop
        invariant_except_break
            start <= s.len(),
            split_on(line@, pat@) == texts(fields@) + split_on(line@.skip(start as int), pat@),
        invariant
            s@ == line@,
            p@ == pat@,
            pat@.len() > 0,
        ensures
            texts(fields@) == split_on(line@, pat@),
        decreases s.len() - start,
    {
        let ghost rest = line@.skip(start as int);
        match find_from(&s, &p, start) {
            Some(i) => {
                proof {
                    lemma_first_match_in_suffix(line@, pat@, start as int, i as int);
                    assert(rest.take(i - start) =~= line@.subrange(start as int, i as int));
                    assert(rest.skip(i - start + pat@.len()) =~= line@.skip(i + pat@.len()));
                }
                fields.push(line.substring_char(start, i).to_owned());
                start = i + p.len();
            },
            None => {
                proof {
                    lemma_no_match_in_suffix(line@, pat@, start as int);
                }
                fields.push(line.substring_char(start, s.len()).to_owned());
                break;
            },
        }
    }
    fields
}

/// Splits `text` into its lines, as `str::lines` does.
pub fn split_lines(text: &str) -> (lines: Vec<String>)
    ensures
        texts(lines@) == lines_of(text@),
{
    let s = chars_of(text);
    let mut feed: Vec<char> = Vec::new();
    feed.push('\n');
    let mut lines: Vec<String> = Vec::new();
    let mut start: usize = 0;
    assert(text@.skip(0) =~= text@);
    while start < s.len()
        invariant
            start <= s.len(),
            s@ == text@,
            feed@ == line_feed(),
            lines_of(text@) == texts(lines@) + lines_of(text@.skip(start as int)),
        decreases s.len() - start,
    {
        let ghost rest = text@.skip(start as int);
        match find_from(&s, &feed, start) {
            Some(i) => {
                let end: usize = if i > start && s[i - 1] == '\r' {
                    i - 1
                } else {
                    i
                };
                proof {
                    lemma_first_match_in_suffix(text@, line_feed(), start as int, i as int);
                    assert(strip_cr(rest.take(i - start)) =~= text@.subrange(
                        start as int,
                        end as int,
                    ));
                    assert(rest.skip(i - start + 1) =~= text@.skip(i + 1));
                }
                lines.push(text.substring_char(start, end).to_owned());
                start = i + 1;
            },
            None => {
                proof {
                    lemma_no_match_in_suffix(text@, line_feed(), start as int);
                }
                lines.push(text.substring_char(start, s.len()).to_owned());
                start = s.len();
            },
        }
    }
    lines
}

} // verus!
