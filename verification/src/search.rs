//! Plain-text find: splitting a buffer into lines and locating every
//! occurrence of a query in them.
use vstd::prelude::*;

use crate::text;
use crate::text::{occurs_at_exec, CR, LF};

verus! {

/// A line without its trailing "\r", if it has one.
pub open spec fn strip_cr(line: Seq<u8>) -> Seq<u8> {
    if line.len() > 0 && line.last() == CR {
        line.drop_last()
    } else {
        line
    }
}

/// The lines of `s`, given that `cur` holds the unfinished line before it.
/// A line ends at "\n", which is dropped together with a "\r" just before
/// it; a last line without "\n" is kept unless it is empty.
pub open spec fn lines_after(s: Seq<u8>, cur: Seq<u8>) -> Seq<Seq<u8>>
    decreases s.len(),
{
    if s.len() == 0 {
        if cur.len() == 0 {
            seq![]
        } else {
            seq![cur]
        }
    } else if s[0] == LF {
        seq![strip_cr(cur)] + lines_after(s.skip(1), seq![])
    } else {
        lines_after(s.skip(1), cur.push(s[0]))
    }
}

/// The lines of a text, as `str::lines` yields them.
pub open spec fn lines(s: Seq<u8>) -> Seq<Seq<u8>> {
    lines_after(s, seq![])
}

/// The occurrences of `q` in `line` at or after byte `from`, leftmost first
/// and without overlap, as (start, end) byte ranges. None for an empty `q`.
pub open spec fn line_matches(line: Seq<u8>, q: Seq<u8>, from: int) -> Seq<(int, int)>
    decreases line.len() - from,
{
    if q.len() == 0 || from < 0 || from + q.len() > line.len() {
        seq![]
    } else if text::occurs_at(line, q, from) {
        seq![(from, from + q.len())] + line_matches(line, q, from + q.len())
    } else {
        line_matches(line, q, from + 1)
    }
}

/// The ranges of one line, tagged with the line's index.
pub open spec fn tagged(l: int, ms: Seq<(int, int)>) -> Seq<(int, int, int)> {
    ms.map_values(|m: (int, int)| (l, m.0, m.1))
}

/// The occurrences of `q` in a sequence of lines, in line order, as
/// (line, start, end).
pub open spec fn matches_in(ls: Seq<Seq<u8>>, q: Seq<u8>) -> Seq<(int, int, int)>
    decreases ls.len(),
{
    if ls.len() == 0 {
        seq![]
    } else {
        matches_in(ls.drop_last(), q) + tagged(ls.len() - 1, line_matches(ls.last(), q, 0))
    }
}

/// Every occurrence of `q` in the text `s`, line by line.
pub open spec fn all_matches(s: Seq<u8>, q: Seq<u8>) -> Seq<(int, int, int)> {
    matches_in(lines(s), q)
}

/// A single search match: byte offsets within a line.
#[derive(Clone, Copy, Debug, PartialEq, Eq, Structural)]
pub struct Match {
    /// Index of the line.
    pub line: usize,
    /// Byte offset of the first matched byte.
    pub start: usize,
    /// Byte offset just past the match.
    pub end: usize,
}

/// A list of matches as mathematical triples.
pub open spec fn match_triples(v: Seq<Match>) -> Seq<(int, int, int)> {
    v.map_values(|m: Match| (m.line as int, m.start as int, m.end as int))
}

/// A list of byte ranges as mathematical pairs.
pub open spec fn range_pairs(v: Seq<(usize, usize)>) -> Seq<(int, int)> {
    v.map_values(|p: (usize, usize)| (p.0 as int, p.1 as int))
}

/// The byte ranges of every occurrence of `query` in `line`, leftmost first and
/// without overlap. An empty query matches nothing.
pub fn line_match_ranges(line: &[u8], query: &[u8]) -> (r: Vec<(usize, usize)>)
    ensures
        range_pairs(r@) == line_matches(line@, query@, 0),
{
    let n = line.len();
    let m = query.len();
    let mut out: Vec<(usize, usize)> = Vec::new();
    if m == 0 || m > n {
        return out;
    }
    let mut from: usize = 0;
    while from <= n - m
        invariant
            n == line@.len(),
            m == query@.len(),
            0 < m <= n,
            from <= n,
            range_pairs(out@) + line_matches(line@, query@, from as int) == line_matches(
                line@,
                query@,
                0,
            ),
        decreases n - from,
    {
        if occurs_at_exec(line, query, from) {
            let ghost before = out@;
            out.push((from, from + m));
            assert(range_pairs(out@) =~= range_pairs(before) + seq![(from as int, from + m)]);
            assert(range_pairs(out@) + line_matches(line@, query@, from + m) =~= range_pairs(
                before,
            ) + (seq![(from as int, (from + m) as int)] + line_matches(
                line@,
                query@,
                from + m,
            )));
            from = from + m;
        } else {
            from = from + 1;
        }
    }
    assert(line_matches(line@, query@, from as int) =~= Seq::<(int, int)>::empty());
    assert(range_pairs(out@) + Seq::<(int, int)>::empty() =~= range_pairs(out@));
    out
}

/// Appends the matches of one line, tagged with its index, to `out`.
fn push_line_matches(out: &mut Vec<Match>, line_no: usize, line: &[u8], query: &[u8])
    ensures
        match_triples(final(out)@) == match_triples(old(out)@) + tagged(
            line_no as int,
            line_matches(line@, query@, 0),
        ),
{
    let ranges = line_match_ranges(line, query);
    let ghost before = out@;
    let mut k: usize = 0;
    while k < ranges.len()
        invariant
            match_triples(out@) == match_triples(before) + tagged(
                line_no as int,
                range_pairs(ranges@.take(k as int)),
            ),
            k <= ranges@.len(),
        decreases ranges@.len() - k,
    {
        let (s, e) = ranges[k];
        let ghost prev = out@;
        out.push(Match { line: line_no, start: s, end: e });
        assert(ranges@.take(k + 1) =~= ranges@.take(k as int).push(ranges@[k as int]));
        assert(range_pairs(ranges@.take(k + 1)) =~= range_pairs(ranges@.take(k as int)).push(
            (s as int, e as int),
        ));
        assert(match_triples(out@) =~= match_triples(prev).push((line_no as int, s as int, e as int)));
        assert(tagged(line_no as int, range_pairs(ranges@.take(k + 1))) =~= tagged(
            line_no as int,
            range_pairs(ranges@.take(k as int)),
        ).push((line_no as int, s as int, e as int)));
        k = k + 1;
    }
    assert(ranges@.take(ranges@.len() as int) =~= ranges@);
}

/// Finds every occurrence of `query` in `text`, line by line, leftmost first
/// within a line and without overlap.
pub fn find_matches(text: &[u8], query: &[u8]) -> (r: Vec<Match>)
    ensures
        match_triples(r@) == all_matches(text@, query@),
{
    let n = text.len();
    let mut out: Vec<Match> = Vec::new();
    let mut cur: Vec<u8> = Vec::new();
    let mut line_no: usize = 0;
    let mut i: usize = 0;
    let ghost mut done: Seq<Seq<u8>> = seq![];
    assert(text@.skip(0) =~= text@);
    assert(done + lines(text@) =~= lines(text@));
    while i < n
        invariant
            n == text@.len(),
            i <= n,
            line_no as int == done.len(),
            line_no <= i,
            done + lines_after(text@.skip(i as int), cur@) == lines(text@),
            match_triples(out@) == matches_in(done, query@),
        decreases n - i,
    {
        let ghost rest = text@.skip(i as int);
        assert(rest[0] == text@[i as int]);
        assert(rest.skip(1) =~= text@.skip(i + 1));
        let b = text[i];
        if b == LF {
            let ghost line = strip_cr(cur@);
            let len = cur.len();
            if len > 0 && cur[len - 1] == CR {
                cur.pop();
                assert(cur@ =~= line);
            }
            assert(cur@ == line);
            push_line_matches(&mut out, line_no, cur.as_slice(), query);
            proof {
                assert(done.push(line).drop_last() =~= done);
                assert(done.push(line) + lines_after(text@.skip(i + 1), seq![]) =~= done + (seq![
                    line,
                ] + lines_after(rest.skip(1), seq![])));
                done = done.push(line);
            }
            cur = Vec::new();
            line_no = line_no + 1;
        } else {
            cur.push(b);
        }
        i = i + 1;
    }
    assert(text@.skip(n as int) =~= Seq::<u8>::empty());
    if cur.len() > 0 {
        push_line_matches(&mut out, line_no, cur.as_slice(), query);
        proof {
            assert(done.push(cur@).drop_last() =~= done);
            assert(done + seq![cur@] =~= done.push(cur@));
        }
    } else {
        assert(done + Seq::<Seq<u8>>::empty() =~= done);
    }
    out
}

} // verus!
