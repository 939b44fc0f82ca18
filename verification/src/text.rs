//! Byte-level text operations on UTF-8 buffers: newline normalization,
//! CRLF conversion and literal substring replacement.
use vstd::prelude::*;

verus! {

/// The carriage-return byte.
pub const CR: u8 = 13;

/// The line-feed byte.
pub const LF: u8 = 10;

/// `s` holds "\r\n" starting at index `i`.
pub open spec fn is_crlf_at(s: Seq<u8>, i: int) -> bool {
    0 <= i && i + 1 < s.len() && s[i] == CR && s[i + 1] == LF
}

/// `s` contains the two-byte sequence "\r\n" somewhere.
pub open spec fn contains_crlf(s: Seq<u8>) -> bool {
    exists|i: int| is_crlf_at(s, i)
}

/// `s` with each "\r\n" (scanned left to right) replaced by "\n".
pub open spec fn normalize_newlines(s: Seq<u8>) -> Seq<u8>
    decreases s.len(),
{
    if s.len() == 0 {
        seq![]
    } else if is_crlf_at(s, 0) {
        seq![LF] + normalize_newlines(s.skip(2))
    } else {
        seq![s[0]] + normalize_newlines(s.skip(1))
    }
}

/// `s` with each "\n" replaced by "\r\n".
pub open spec fn lf_to_crlf(s: Seq<u8>) -> Seq<u8>
    decreases s.len(),
{
    if s.len() == 0 {
        seq![]
    } else if s[0] == LF {
        seq![CR, LF] + lf_to_crlf(s.skip(1))
    } else {
        seq![s[0]] + lf_to_crlf(s.skip(1))
    }
}

/// Returns whether `text` contains "\r\n".
pub fn contains_crlf_exec(text: &[u8]) -> (r: bool)
    ensures
        r == contains_crlf(text@),
{
    let n = text.len();
    if n == 0 {
        return false;
    }
    let mut i: usize = 0;
    while i + 1 < n
        invariant
            n == text@.len(),
            i < n,
            forall|j: int| 0 <= j < i ==> !is_crlf_at(text@, j),
        decreases n - i,
    {
        if text[i] == CR && text[i + 1] == LF {
            assert(is_crlf_at(text@, i as int));
            return true;
        }
        i = i + 1;
    }
    assert forall|j: int| !is_crlf_at(text@, j) by {
        if 0 <= j < i {
        }
    }
    false
}

/// Normalizes line endings to `\n`: every "\r\n" becomes "\n".
pub fn normalized(text: &[u8]) -> (r: Vec<u8>)
    ensures
        r@ == normalize_newlines(text@),
{
    let n = text.len();
    let mut out: Vec<u8> = Vec::new();
    let mut i: usize = 0;
    assert(text@.skip(0) =~= text@);
    assert(out@ + normalize_newlines(text@) =~= normalize_newlines(text@));
    while i < n
        invariant
            n == text@.len(),
            i <= n,
            out@ + normalize_newlines(text@.skip(i as int)) == normalize_newlines(text@),
        decreases n - i,
    {
        let ghost rest = text@.skip(i as int);
        if i + 1 < n && text[i] == CR && text[i + 1] == LF {
            assert(is_crlf_at(rest, 0));
            assert(rest.skip(2) =~= text@.skip(i + 2));
            assert(out@.push(LF) + normalize_newlines(text@.skip(i + 2)) =~= out@ + (seq![LF]
                + normalize_newlines(rest.skip(2))));
            out.push(LF);
            i = i + 2;
        } else {
            assert(!is_crlf_at(rest, 0));
            assert(rest[0] == text@[i as int]);
            assert(rest.skip(1) =~= text@.skip(i + 1));
            let b = text[i];
            assert(out@.push(b) + normalize_newlines(text@.skip(i + 1)) =~= out@ + (seq![b]
                + normalize_newlines(rest.skip(1))));
            out.push(b);
            i = i + 1;
        }
    }
    assert(text@.skip(n as int) =~= Seq::<u8>::empty());
    assert(out@ + normalize_newlines(text@.skip(n as int)) =~= out@);
    out
}

/// Replaces every "\n" by "\r\n".
pub fn lf_to_crlf_exec(text: &[u8]) -> (r: Vec<u8>)
    ensures
        r@ == lf_to_crlf(text@),
{
    let n = text.len();
    let mut out: Vec<u8> = Vec::new();
    let mut i: usize = 0;
    assert(text@.skip(0) =~= text@);
    assert(out@ + lf_to_crlf(text@) =~= lf_to_crlf(text@));
    while i < n
        invariant
            n == text@.len(),
            i <= n,
            out@ + lf_to_crlf(text@.skip(i as int)) == lf_to_crlf(text@),
        decreases n - i,
    {
        let ghost rest = text@.skip(i as int);
        assert(rest[0] == text@[i as int]);
        assert(rest.skip(1) =~= text@.skip(i + 1));
        let b = text[i];
        if b == LF {
            assert(out@.push(CR).push(LF) + lf_to_crlf(text@.skip(i + 1)) =~= out@ + (seq![CR, LF]
                + lf_to_crlf(rest.skip(1))));
            out.push(CR);
            out.push(LF);
        } else {
            assert(out@.push(b) + lf_to_crlf(text@.skip(i + 1)) =~= out@ + (seq![b] + lf_to_crlf(
                rest.skip(1),
            )));
            out.push(b);
        }
        i = i + 1;
    }
    assert(text@.skip(n as int) =~= Seq::<u8>::empty());
    assert(out@ + lf_to_crlf(text@.skip(n as int)) =~= out@);
    out
}

/// `q` occurs in `s` starting at index `i`.
pub open spec fn occurs_at(s: Seq<u8>, q: Seq<u8>, i: int) -> bool {
    0 <= i && i + q.len() <= s.len() && s.subrange(i, i + q.len()) == q
}

/// `s` with every occurrence of the non-empty pattern `q` (found left to
/// right, without overlap) replaced by `r`. An empty pattern leaves `s` as is.
pub open spec fn replace_all(s: Seq<u8>, q: Seq<u8>, r: Seq<u8>) -> Seq<u8>
    decreases s.len(),
{
    if q.len() == 0 || s.len() == 0 {
        s
    } else if occurs_at(s, q, 0) {
        r + replace_all(s.skip(q.len() as int), q, r)
    } else {
        seq![s[0]] + replace_all(s.skip(1), q, r)
    }
}

/// Returns whether `q` occurs in `s` at index `i`.
pub fn occurs_at_exec(s: &[u8], q: &[u8], i: usize) -> (r: bool)
    ensures
        r == occurs_at(s@, q@, i as int),
{
    let n = s.len();
    let m = q.len();
    if i > n || m > n - i {
        return false;
    }
    let mut k: usize = 0;
    while k < m
        invariant
            n == s@.len(),
            m == q@.len(),
            i + m <= n,
            k <= m,
            forall|j: int| 0 <= j < k ==> s@[i + j] == q@[j],
        decreases m - k,
    {
        if s[i + k] != q[k] {
            assert(s@.subrange(i as int, i + m)[k as int] != q@[k as int]);
            return false;
        }
        k = k + 1;
    }
    assert(s@.subrange(i as int, i + m) =~= q@);
    true
}

/// Replaces every occurrence of the non-empty pattern `from` in `text` by `to`,
/// scanning left to right without overlap (as `str::replace` does).
pub fn replace_all_exec(text: &[u8], from: &[u8], to: &[u8]) -> (r: Vec<u8>)
    requires
        from@.len() > 0,
    ensures
        r@ == replace_all(text@, from@, to@),
{
    let n = text.len();
    let m = from.len();
    let mut out: Vec<u8> = Vec::new();
    let mut i: usize = 0;
    assert(text@.skip(0) =~= text@);
    assert(out@ + replace_all(text@, from@, to@) =~= replace_all(text@, from@, to@));
    while i < n
        invariant
            n == text@.len(),
            m == from@.len(),
            m > 0,
            i <= n,
            out@ + replace_all(text@.skip(i as int), from@, to@) == replace_all(
                text@,
                from@,
                to@,
            ),
        decreases n - i,
    {
        let ghost rest = text@.skip(i as int);
        if occurs_at_exec(text, from, i) {
            assert(rest.subrange(0, m as int) =~= text@.subrange(i as int, i + m));
            assert(occurs_at(rest, from@, 0));
            assert(rest.skip(m as int) =~= text@.skip(i + m));
            let mut k: usize = 0;
            let ghost before = out@;
            while k < to.len()
                invariant
                    k <= to@.len(),
                    out@ == before + to@.subrange(0, k as int),
                decreases to@.len() - k,
            {
                out.push(to[k]);
                k = k + 1;
                assert(out@ =~= before + to@.subrange(0, k as int));
            }
            assert(to@.subrange(0, to@.len() as int) =~= to@);
            assert(out@ + replace_all(text@.skip(i + m), from@, to@) =~= before + (to@
                + replace_all(rest.skip(m as int), from@, to@)));
            i = i + m;
        } else {
            if m <= n - i {
                assert(rest.subrange(0, m as int) =~= text@.subrange(i as int, i + m));
            }
            assert(!occurs_at(rest, from@, 0));
            assert(rest[0] == text@[i as int]);
            assert(rest.skip(1) =~= text@.skip(i + 1));
            let b = text[i];
            assert(out@.push(b) + replace_all(text@.skip(i + 1), from@, to@) =~= out@ + (seq![b]
                + replace_all(rest.skip(1), from@, to@)));
            out.push(b);
            i = i + 1;
        }
    }
    assert(text@.skip(n as int) =~= Seq::<u8>::empty());
    assert(out@ + replace_all(text@.skip(n as int), from@, to@) =~= out@);
    out
}

/// The first byte of a CRLF-converted text is never a bare "\n".
proof fn lemma_lf_to_crlf_head(u: Seq<u8>)
    ensures
        lf_to_crlf(u).len() > 0 ==> lf_to_crlf(u)[0] != LF,
        lf_to_crlf(u).len() == 0 <==> u.len() == 0,
{
    if u.len() > 0 {
        if u[0] == LF {
            assert((seq![CR, LF] + lf_to_crlf(u.skip(1)))[0] == CR);
        } else {
            assert((seq![u[0]] + lf_to_crlf(u.skip(1)))[0] == u[0]);
        }
    }
}

/// Converting "\n" to "\r\n" and normalizing back gives the same text.
pub proof fn lemma_normalize_undoes_crlf(u: Seq<u8>)
    ensures
        normalize_newlines(lf_to_crlf(u)) == u,
    decreases u.len(),
{
    if u.len() > 0 {
        let tail = lf_to_crlf(u.skip(1));
        lemma_normalize_undoes_crlf(u.skip(1));
        lemma_lf_to_crlf_head(u.skip(1));
        if u[0] == LF {
            let c = seq![CR, LF] + tail;
            assert(is_crlf_at(c, 0));
            assert(c.skip(2) =~= tail);
            assert(seq![LF] + u.skip(1) =~= u);
        } else {
            let c = seq![u[0]] + tail;
            assert(c.skip(1) =~= tail);
            assert(!is_crlf_at(c, 0));
            assert(seq![u[0]] + u.skip(1) =~= u);
        }
    }
}

/// Normalizing newlines keeps every "\n": the result holds one exactly when
/// the input does.
pub proof fn lemma_normalize_keeps_lf(t: Seq<u8>)
    ensures
        normalize_newlines(t).contains(LF) <==> t.contains(LF),
    decreases t.len(),
{
    if t.len() > 0 {
        if is_crlf_at(t, 0) {
            let tail = normalize_newlines(t.skip(2));
            lemma_normalize_keeps_lf(t.skip(2));
            assert((seq![LF] + tail)[0] == LF);
            assert(t[1] == LF);
        } else {
            let tail = normalize_newlines(t.skip(1));
            lemma_normalize_keeps_lf(t.skip(1));
            let c = seq![t[0]] + tail;
            if c.contains(LF) {
                let k = choose|k: int| 0 <= k < c.len() && c[k] == LF;
                if k > 0 {
                    assert(tail[k - 1] == LF);
                    assert(t.skip(1)[choose|j: int| 0 <= j < t.skip(1).len() && t.skip(1)[j] == LF]
                        == LF);
                }
            }
            if t.contains(LF) {
                let k = choose|k: int| 0 <= k < t.len() && t[k] == LF;
                if k > 0 {
                    assert(t.skip(1)[k - 1] == LF);
                    let j = choose|j: int| 0 <= j < tail.len() && tail[j] == LF;
                    assert(c[j + 1] == LF);
                } else {
                    assert(c[0] == LF);
                }
            }
        }
    }
}

/// A text holding "\n" holds "\r\n" once every "\n" is converted.
pub proof fn lemma_crlf_after_conversion(u: Seq<u8>)
    requires
        u.contains(LF),
    ensures
        contains_crlf(lf_to_crlf(u)),
    decreases u.len(),
{
    let tail = lf_to_crlf(u.skip(1));
    if u[0] == LF {
        let c = seq![CR, LF] + tail;
        assert(is_crlf_at(c, 0));
    } else {
        let k = choose|k: int| 0 <= k < u.len() && u[k] == LF;
        assert(u.skip(1)[k - 1] == LF);
        lemma_crlf_after_conversion(u.skip(1));
        let j = choose|j: int| is_crlf_at(tail, j);
        let c = seq![u[0]] + tail;
        assert(is_crlf_at(c, j + 1));
    }
}

/// A text without "\r" holds no "\r\n".
pub proof fn lemma_no_cr_no_crlf(t: Seq<u8>)
    requires
        !t.contains(CR),
    ensures
        !contains_crlf(t),
{
    if contains_crlf(t) {
        let i = choose|i: int| is_crlf_at(t, i);
        assert(t[i] == CR);
    }
}

/// Replacing a pattern by itself changes nothing.
pub proof fn lemma_replace_with_itself(s: Seq<u8>, q: Seq<u8>)
    ensures
        replace_all(s, q, q) == s,
    decreases s.len(),
{
    if q.len() > 0 && s.len() > 0 {
        if occurs_at(s, q, 0) {
            lemma_replace_with_itself(s.skip(q.len() as int), q);
            assert(s.subrange(0, q.len() as int) + s.skip(q.len() as int) =~= s);
        } else {
            lemma_replace_with_itself(s.skip(1), q);
            assert(seq![s[0]] + s.skip(1) =~= s);
        }
    }
}

/// A pattern that occurs nowhere leaves the text unchanged.
pub proof fn lemma_replace_absent(s: Seq<u8>, q: Seq<u8>, r: Seq<u8>)
    requires
        forall|i: int| !occurs_at(s, q, i),
    ensures
        replace_all(s, q, r) == s,
    decreases s.len(),
{
    if q.len() > 0 && s.len() > 0 {
        assert(!occurs_at(s, q, 0));
        assert forall|i: int| !occurs_at(s.skip(1), q, i) by {
            if occurs_at(s.skip(1), q, i) {
                assert(s.subrange(i + 1, i + 1 + q.len()) =~= s.skip(1).subrange(i, i + q.len()));
                assert(occurs_at(s, q, i + 1));
            }
        }
        lemma_replace_absent(s.skip(1), q, r);
        assert(seq![s[0]] + s.skip(1) =~= s);
    }
}


/// `s` holds "\r\r\n" starting at index `i`.
pub open spec fn is_cr_crlf_at(s: Seq<u8>, i: int) -> bool {
    0 <= i && i + 2 < s.len() && s[i] == CR && s[i + 1] == CR && s[i + 2] == LF
}

/// `s` contains "\r\r\n" somewhere.
pub open spec fn contains_cr_crlf(s: Seq<u8>) -> bool {
    exists|i: int| is_cr_crlf_at(s, i)
}

/// Every "\n" of a CRLF-converted text directly follows a "\r".
pub proof fn lemma_lf_follows_cr(u: Seq<u8>)
    ensures
        forall|i: int|
            0 <= i < lf_to_crlf(u).len() && #[trigger] lf_to_crlf(u)[i] == LF ==> i > 0
                && lf_to_crlf(u)[i - 1] == CR,
    decreases u.len(),
{
    if u.len() > 0 {
        lemma_lf_follows_cr(u.skip(1));
        let tail = lf_to_crlf(u.skip(1));
        let c = lf_to_crlf(u);
        lemma_lf_to_crlf_head(u.skip(1));
        if u[0] == LF {
            assert(c == seq![CR, LF] + tail);
            assert forall|i: int| 0 <= i < c.len() && #[trigger] c[i] == LF implies i > 0 && c[i
                - 1] == CR by {
                if i >= 2 {
                    assert(c[i] == tail[i - 2]);
                    if i - 2 == 0 {
                    } else {
                        assert(c[i - 1] == tail[i - 3]);
                    }
                }
            }
        } else {
            assert(c == seq![u[0]] + tail);
            assert forall|i: int| 0 <= i < c.len() && #[trigger] c[i] == LF implies i > 0 && c[i
                - 1] == CR by {
                if i >= 1 {
                    assert(c[i] == tail[i - 1]);
                    if i >= 2 {
                        assert(c[i - 1] == tail[i - 2]);
                    }
                }
            }
        }
    }
}

/// The first byte of a normalized text is "\n" only where the text starts
/// with "\n" or "\r\n".
proof fn lemma_normalize_head(s: Seq<u8>)
    ensures
        normalize_newlines(s).len() > 0 && normalize_newlines(s)[0] == LF ==> s[0] == LF
            || is_crlf_at(s, 0),
        normalize_newlines(s).len() > 0 && normalize_newlines(s)[0] != LF ==> s[0]
            == normalize_newlines(s)[0] && !is_crlf_at(s, 0),
        normalize_newlines(s).len() == 0 <==> s.len() == 0,
{
    if s.len() > 0 {
        if is_crlf_at(s, 0) {
            assert((seq![LF] + normalize_newlines(s.skip(2)))[0] == LF);
        } else {
            assert((seq![s[0]] + normalize_newlines(s.skip(1)))[0] == s[0]);
        }
    }
}

/// "\r\r\n" in a CRLF-converted text comes from a "\r\n" before conversion.
proof fn lemma_cr_crlf_from_crlf(u: Seq<u8>)
    requires
        contains_cr_crlf(lf_to_crlf(u)),
    ensures
        contains_crlf(u),
    decreases u.len(),
{
    let c = lf_to_crlf(u);
    let i = choose|i: int| is_cr_crlf_at(c, i);
    let tail = lf_to_crlf(u.skip(1));
    lemma_lf_to_crlf_head(u.skip(1));
    if u[0] == LF {
        assert(c == seq![CR, LF] + tail);
        if i >= 2 {
            assert(is_cr_crlf_at(tail, i - 2));
            lemma_cr_crlf_from_crlf(u.skip(1));
            let j = choose|j: int| is_crlf_at(u.skip(1), j);
            assert(is_crlf_at(u, j + 1));
        }
    } else {
        assert(c == seq![u[0]] + tail);
        if i >= 1 {
            assert(is_cr_crlf_at(tail, i - 1));
            lemma_cr_crlf_from_crlf(u.skip(1));
            let j = choose|j: int| is_crlf_at(u.skip(1), j);
            assert(is_crlf_at(u, j + 1));
        } else {
            // u[0] == CR and the converted rest starts with "\r\n".
            assert(tail[0] == CR);
            let r = u.skip(1);
            if r[0] == LF {
                assert(is_crlf_at(u, 0));
            } else {
                assert(r[0] == CR);
                let rt = lf_to_crlf(r.skip(1));
                lemma_lf_to_crlf_head(r.skip(1));
                assert(tail == seq![r[0]] + rt);
                assert(tail[1] == rt[0]);
            }
        }
    }
}

/// "\r\n" in a normalized text comes from "\r\r\n" before normalizing.
proof fn lemma_crlf_after_normalize(t: Seq<u8>)
    requires
        contains_crlf(normalize_newlines(t)),
    ensures
        contains_cr_crlf(t),
    decreases t.len(),
{
    let n = normalize_newlines(t);
    let i = choose|i: int| is_crlf_at(n, i);
    if is_crlf_at(t, 0) {
        let tail = normalize_newlines(t.skip(2));
        assert(n == seq![LF] + tail);
        assert(i >= 1);
        assert(is_crlf_at(tail, i - 1));
        lemma_crlf_after_normalize(t.skip(2));
        let j = choose|j: int| is_cr_crlf_at(t.skip(2), j);
        assert(is_cr_crlf_at(t, j + 2));
    } else {
        let tail = normalize_newlines(t.skip(1));
        assert(n == seq![t[0]] + tail);
        if i >= 1 {
            assert(is_crlf_at(tail, i - 1));
            lemma_crlf_after_normalize(t.skip(1));
            let j = choose|j: int| is_cr_crlf_at(t.skip(1), j);
            assert(is_cr_crlf_at(t, j + 1));
        } else {
            // t[0] == CR, not followed by "\n", and the rest normalizes to "\n...".
            lemma_normalize_head(t.skip(1));
            assert(tail[0] == LF);
            assert(t.skip(1)[0] != LF);
            assert(is_crlf_at(t.skip(1), 0));
            assert(is_cr_crlf_at(t, 0));
        }
    }
}

/// A text without "\r\r\n" holds none after its newlines are normalized and
/// converted to "\r\n".
pub proof fn lemma_crlf_conversion_adds_no_cr_crlf(t: Seq<u8>)
    requires
        !contains_cr_crlf(t),
    ensures
        !contains_cr_crlf(lf_to_crlf(normalize_newlines(t))),
{
    if contains_cr_crlf(lf_to_crlf(normalize_newlines(t))) {
        lemma_cr_crlf_from_crlf(normalize_newlines(t));
        lemma_crlf_after_normalize(t);
    }
}


/// Replacing by a pattern at least as long never shortens the text, and by
/// one at most as long never lengthens it.
proof fn lemma_replace_all_length(s: Seq<u8>, q: Seq<u8>, r: Seq<u8>)
    ensures
        r.len() >= q.len() ==> replace_all(s, q, r).len() >= s.len(),
        r.len() <= q.len() ==> replace_all(s, q, r).len() <= s.len(),
    decreases s.len(),
{
    if q.len() > 0 && s.len() > 0 {
        if occurs_at(s, q, 0) {
            lemma_replace_all_length(s.skip(q.len() as int), q, r);
        } else {
            lemma_replace_all_length(s.skip(1), q, r);
        }
    }
}

/// Replacing an occurring pattern by a different text changes the text.
pub proof fn lemma_replace_all_changes_text(s: Seq<u8>, q: Seq<u8>, r: Seq<u8>, i: int)
    requires
        occurs_at(s, q, i),
        q.len() > 0,
        r != q,
    ensures
        replace_all(s, q, r) != s,
    decreases s.len(),
{
    let res = replace_all(s, q, r);
    if occurs_at(s, q, 0) {
        let rest = s.skip(q.len() as int);
        let rr = replace_all(rest, q, r);
        assert(res == r + rr);
        lemma_replace_all_length(rest, q, r);
        if r.len() == q.len() {
            if res == s {
                assert(r =~= res.subrange(0, q.len() as int));
                assert(q =~= s.subrange(0, q.len() as int));
            }
        } else {
            assert(res.len() != s.len());
        }
    } else {
        assert(i >= 1);
        let tail = s.skip(1);
        assert(tail.subrange(i - 1, i - 1 + q.len()) =~= s.subrange(i, i + q.len()));
        lemma_replace_all_changes_text(tail, q, r, i - 1);
        assert(res == seq![s[0]] + replace_all(tail, q, r));
        if res == s {
            assert(replace_all(tail, q, r) =~= res.skip(1));
            assert(tail =~= s.skip(1));
        }
    }
}

} // verus!
