//! The line-ending convention of a document, detected on open and
//! re-applied on save.
use vstd::prelude::*;

use crate::text;
use crate::text::{contains_crlf_exec, lf_to_crlf_exec, normalized, CR, LF};

verus! {

/// The line-ending convention of a document, preserved across save.
#[derive(Clone, Copy, Debug, PartialEq, Eq, Structural)]
pub enum LineEnding {
    /// Unix line endings (`\n`). Default for new documents.
    Lf,
    /// Windows line endings (`\r\n`).
    Crlf,
}

impl LineEnding {
    /// The convention of a text: CRLF as soon as it holds one "\r\n".
    pub open spec fn detected(text: Seq<u8>) -> LineEnding {
        if text::contains_crlf(text) {
            LineEnding::Crlf
        } else {
            LineEnding::Lf
        }
    }

    /// The bytes written to disk for a buffer under this convention.
    pub open spec fn applied(self, text: Seq<u8>) -> Seq<u8> {
        match self {
            LineEnding::Lf => text,
            LineEnding::Crlf => text::lf_to_crlf(text::normalize_newlines(text)),
        }
    }

    /// Detects the line-ending convention used by some text.
    pub fn detect(text: &[u8]) -> (r: Self)
        ensures
            r == Self::detected(text@),
    {
        if contains_crlf_exec(text) {
            LineEnding::Crlf
        } else {
            LineEnding::Lf
        }
    }

    /// Applies this convention to text whose newlines are normalized to `\n`.
    pub fn apply(self, text: Vec<u8>) -> (r: Vec<u8>)
        ensures
            r@ == self.applied(text@),
    {
        match self {
            LineEnding::Lf => text,
            // Normalize first so that existing "\r\n" pairs are not doubled.
            LineEnding::Crlf => {
                let n = normalized(text.as_slice());
                lf_to_crlf_exec(n.as_slice())
            },
        }
    }
}

/// Saving under any convention keeps the document's content: the written bytes
/// and the buffer are equal once their line endings are normalized.
pub proof fn law_apply_preserves_content(le: LineEnding, text: Seq<u8>)
    ensures
        text::normalize_newlines(le.applied(text)) == text::normalize_newlines(text),
{
    if le == LineEnding::Crlf {
        text::lemma_normalize_undoes_crlf(text::normalize_newlines(text));
    }
}

/// A file's convention survives a save of its own contents: the bytes written
/// under the detected convention are detected as that convention again.
pub proof fn law_detected_convention_survives_save(contents: Seq<u8>)
    ensures
        LineEnding::detected(LineEnding::detected(contents).applied(contents))
            == LineEnding::detected(contents),
{
    if text::contains_crlf(contents) {
        let i = choose|i: int| #![auto] text::is_crlf_at(contents, i);
        assert(contents[i + 1] == LF);
        text::lemma_normalize_keeps_lf(contents);
        text::lemma_crlf_after_conversion(text::normalize_newlines(contents));
    }
}

/// An edited buffer with at least one line break and no "\r" is written with
/// exactly the document's convention.
pub proof fn law_save_writes_convention(le: LineEnding, text: Seq<u8>)
    requires
        text.contains(LF),
        !text.contains(CR),
    ensures
        LineEnding::detected(le.applied(text)) == le,
{
    match le {
        LineEnding::Lf => {
            text::lemma_no_cr_no_crlf(text);
        },
        LineEnding::Crlf => {
            text::lemma_normalize_keeps_lf(text);
            text::lemma_crlf_after_conversion(text::normalize_newlines(text));
        },
    }
}


/// CRLF output is well formed: applying CRLF again changes nothing, every
/// "\n" written directly follows a "\r", and no "\r\r\n" is written unless
/// the buffer already held one.
pub proof fn law_crlf_output(text: Seq<u8>)
    ensures
        LineEnding::Crlf.applied(LineEnding::Crlf.applied(text)) == LineEnding::Crlf.applied(text),
        forall|i: int|
            0 <= i < LineEnding::Crlf.applied(text).len() && #[trigger] LineEnding::Crlf.applied(
                text,
            )[i] == LF ==> i > 0 && LineEnding::Crlf.applied(text)[i - 1] == CR,
        !text::contains_cr_crlf(text) ==> !text::contains_cr_crlf(LineEnding::Crlf.applied(text)),
{
    let n = text::normalize_newlines(text);
    text::lemma_normalize_undoes_crlf(n);
    text::lemma_lf_follows_cr(n);
    if !text::contains_cr_crlf(text) {
        text::lemma_crlf_conversion_adds_no_cr_crlf(text);
    }
}

} // verus!
