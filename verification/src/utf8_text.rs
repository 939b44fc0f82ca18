//! The buffer operations keep text valid UTF-8: replacing a valid pattern by
//! a valid replacement, normalizing newlines and converting them to "\r\n"
//! all turn valid UTF-8 into valid UTF-8.
use vstd::prelude::*;

use crate::text;
use crate::text::{CR, LF};

verus! {

/// `s` is valid UTF-8.
pub open spec fn is_utf8(s: Seq<u8>) -> bool {
    vstd::utf8::valid_utf8(s)
}

/// The first byte of a valid non-empty UTF-8 text is not a continuation byte.
proof fn lemma_first_byte_leads(s: Seq<u8>)
    requires
        is_utf8(s),
        s.len() > 0,
    ensures
        !vstd::utf8::is_continuation_byte(s[0]),
{
}

/// A single complete scalar at the front of a text is valid UTF-8 on its own.
proof fn lemma_first_scalar_valid(s: Seq<u8>)
    requires
        is_utf8(s),
        s.len() > 0,
    ensures
        is_utf8(vstd::utf8::take_first_scalar(s)),
{
    let t = vstd::utf8::take_first_scalar(s);
    let l = vstd::utf8::length_of_first_scalar(s);
    assert(t.len() == l);
    assert forall|i: int| 0 <= i < l implies t[i] == s[i] by {}
    assert(vstd::utf8::valid_first_scalar(t));
    assert(vstd::utf8::pop_first_scalar(t).len() == 0);
    assert(is_utf8(vstd::utf8::pop_first_scalar(t)));
}

/// What follows a valid prefix of a valid text is valid.
pub proof fn lemma_valid_suffix(a: Seq<u8>, b: Seq<u8>)
    requires
        is_utf8(a + b),
        is_utf8(a),
    ensures
        is_utf8(b),
    decreases a.len(),
{
    if a.len() == 0 {
        assert(a + b =~= b);
    } else {
        let s = a + b;
        let l = vstd::utf8::length_of_first_scalar(a);
        assert(s[0] == a[0]);
        assert(vstd::utf8::length_of_first_scalar(s) == l);
        assert(vstd::utf8::valid_first_scalar(a));
        assert(l <= a.len());
        assert(vstd::utf8::pop_first_scalar(s) =~= vstd::utf8::pop_first_scalar(a) + b);
        lemma_valid_suffix(vstd::utf8::pop_first_scalar(a), b);
    }
}

/// Inside the first scalar of a text no valid non-empty pattern starts:
/// replacing skips the scalar's continuation bytes one by one.
proof fn lemma_replace_skips_scalar(s: Seq<u8>, q: Seq<u8>, r: Seq<u8>, j: int)
    requires
        is_utf8(s),
        s.len() > 0,
        is_utf8(q),
        q.len() > 0,
        1 <= j <= vstd::utf8::length_of_first_scalar(s),
    ensures
        text::replace_all(s.skip(j), q, r) == s.subrange(j, vstd::utf8::length_of_first_scalar(s))
            + text::replace_all(s.skip(vstd::utf8::length_of_first_scalar(s)), q, r),
    decreases vstd::utf8::length_of_first_scalar(s) - j,
{
    let l = vstd::utf8::length_of_first_scalar(s);
    if j == l {
        assert(s.subrange(j, l) =~= Seq::<u8>::empty());
        assert(Seq::<u8>::empty() + text::replace_all(s.skip(l), q, r) =~= text::replace_all(
            s.skip(l),
            q,
            r,
        ));
    } else {
        let t = s.skip(j);
        assert(vstd::utf8::is_continuation_byte(s[j]));
        lemma_first_byte_leads(q);
        assert(t[0] == s[j]);
        if text::occurs_at(t, q, 0) {
            assert(t.subrange(0, q.len() as int)[0] == q[0]);
        }
        assert(t.skip(1) =~= s.skip(j + 1));
        lemma_replace_skips_scalar(s, q, r, j + 1);
        assert(seq![s[j]] + s.subrange(j + 1, l) =~= s.subrange(j, l));
        assert(text::replace_all(t, q, r) == seq![t[0]] + text::replace_all(t.skip(1), q, r));
        assert(seq![s[j]] + (s.subrange(j + 1, l) + text::replace_all(s.skip(l), q, r)) =~= s.subrange(
            j,
            l,
        ) + text::replace_all(s.skip(l), q, r));
    }
}

/// Replacing a valid non-empty pattern by valid text in valid text gives
/// valid text.
pub proof fn lemma_replace_all_keeps_utf8(s: Seq<u8>, q: Seq<u8>, r: Seq<u8>)
    requires
        is_utf8(s),
        is_utf8(q),
        q.len() > 0,
        is_utf8(r),
    ensures
        is_utf8(text::replace_all(s, q, r)),
    decreases s.len(),
{
    if s.len() > 0 {
        if text::occurs_at(s, q, 0) {
            let rest = s.skip(q.len() as int);
            assert(s.subrange(0, q.len() as int) + rest =~= s);
            lemma_valid_suffix(q, rest);
            lemma_replace_all_keeps_utf8(rest, q, r);
            vstd::utf8::valid_utf8_concat(r, text::replace_all(rest, q, r));
        } else {
            let l = vstd::utf8::length_of_first_scalar(s);
            let head = vstd::utf8::take_first_scalar(s);
            let rest = vstd::utf8::pop_first_scalar(s);
            assert(rest =~= s.skip(l));
            lemma_first_scalar_valid(s);
            lemma_replace_all_keeps_utf8(rest, q, r);
            if l > 1 {
                lemma_replace_skips_scalar(s, q, r, 1);
                assert(seq![s[0]] + s.subrange(1, l) =~= head);
            } else {
                assert(s.skip(1) =~= rest);
                assert(seq![s[0]] =~= head);
            }
            assert(text::replace_all(s, q, r) == seq![s[0]] + text::replace_all(s.skip(1), q, r));
            assert(text::replace_all(s, q, r) =~= head + text::replace_all(rest, q, r));
            vstd::utf8::valid_utf8_concat(head, text::replace_all(rest, q, r));
        }
    }
}

/// Normalizing newlines is replacing "\r\n" by "\n".
proof fn lemma_normalize_is_replace(s: Seq<u8>)
    ensures
        text::normalize_newlines(s) == text::replace_all(s, seq![CR, LF], seq![LF]),
    decreases s.len(),
{
    let q = seq![CR, LF];
    if s.len() > 0 {
        if text::is_crlf_at(s, 0) {
            assert(s.subrange(0, 2) =~= q);
            lemma_normalize_is_replace(s.skip(2));
        } else {
            if s.len() >= 2 {
                assert(s.subrange(0, 2)[0] == s[0] && s.subrange(0, 2)[1] == s[1]);
            }
            assert(!text::occurs_at(s, q, 0));
            lemma_normalize_is_replace(s.skip(1));
        }
    }
}

/// Converting to "\r\n" is replacing "\n" by "\r\n".
proof fn lemma_crlf_is_replace(s: Seq<u8>)
    ensures
        text::lf_to_crlf(s) == text::replace_all(s, seq![LF], seq![CR, LF]),
    decreases s.len(),
{
    let q = seq![LF];
    if s.len() > 0 {
        assert(s.subrange(0, 1)[0] == s[0]);
        if s[0] == LF {
            assert(s.subrange(0, 1) =~= q);
        } else {
            assert(!text::occurs_at(s, q, 0));
        }
        lemma_crlf_is_replace(s.skip(1));
    }
}

/// ASCII text of one or two bytes is valid UTF-8.
proof fn lemma_ascii_valid(a: Seq<u8>)
    requires
        1 <= a.len() <= 2,
        forall|i: int| 0 <= i < a.len() ==> a[i] < 0x80,
    ensures
        is_utf8(a),
{
    reveal_with_fuel(vstd::utf8::valid_utf8, 3);
    assert(vstd::utf8::valid_first_scalar(a));
    let p = vstd::utf8::pop_first_scalar(a);
    if a.len() == 2 {
        assert(p =~= seq![a[1]]);
        assert(vstd::utf8::valid_first_scalar(p));
        assert(vstd::utf8::pop_first_scalar(p).len() == 0);
    } else {
        assert(p.len() == 0);
    }
}

/// Normalizing newlines keeps text valid UTF-8.
pub proof fn lemma_normalize_keeps_utf8(s: Seq<u8>)
    requires
        is_utf8(s),
    ensures
        is_utf8(text::normalize_newlines(s)),
{
    lemma_normalize_is_replace(s);
    lemma_ascii_valid(seq![CR, LF]);
    lemma_ascii_valid(seq![LF]);
    lemma_replace_all_keeps_utf8(s, seq![CR, LF], seq![LF]);
}

/// Converting newlines to "\r\n" keeps text valid UTF-8.
pub proof fn lemma_crlf_keeps_utf8(s: Seq<u8>)
    requires
        is_utf8(s),
    ensures
        is_utf8(text::lf_to_crlf(s)),
{
    lemma_crlf_is_replace(s);
    lemma_ascii_valid(seq![CR, LF]);
    lemma_ascii_valid(seq![LF]);
    lemma_replace_all_keeps_utf8(s, seq![LF], seq![CR, LF]);
}


/// An occurrence of a valid pattern in valid text starts and ends on
/// character boundaries.
pub proof fn lemma_occurrence_on_char_boundaries(s: Seq<u8>, q: Seq<u8>, p: int)
    requires
        is_utf8(s),
        is_utf8(q),
        q.len() > 0,
        text::occurs_at(s, q, p),
    ensures
        vstd::utf8::is_char_boundary(s, p),
        vstd::utf8::is_char_boundary(s, p + q.len()),
{
    let e = p + q.len();
    assert(s[p] == s.subrange(p, e)[0]);
    lemma_first_byte_leads(q);
    vstd::utf8::is_char_boundary_iff_not_is_continuation_byte(s, p);
    vstd::utf8::valid_utf8_split(s, p);
    let tail = s.subrange(p, s.len() as int);
    assert(tail =~= q + s.subrange(e, s.len() as int));
    lemma_valid_suffix(q, s.subrange(e, s.len() as int));
    if e < s.len() {
        lemma_first_byte_leads(s.subrange(e, s.len() as int));
        assert(s.subrange(e, s.len() as int)[0] == s[e]);
        vstd::utf8::is_char_boundary_iff_not_is_continuation_byte(s, e);
    } else {
        vstd::utf8::is_char_boundary_start_end_of_seq(s);
    }
}

} // verus!
