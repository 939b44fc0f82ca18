use cosmic_markdown::line_ending::LineEnding;
use cosmic_markdown::text::{contains_crlf_exec, lf_to_crlf_exec, normalized, occurs_at_exec, replace_all_exec};

fn b(s: &str) -> Vec<u8> {
    s.as_bytes().to_vec()
}

#[test]
fn detect_crlf_when_any_pair_present() {
    assert_eq!(LineEnding::detect(b"one\r\ntwo"), LineEnding::Crlf);
    assert_eq!(LineEnding::detect(b"one\ntwo\r\n"), LineEnding::Crlf);
}

#[test]
fn detect_lf_without_pair() {
    assert_eq!(LineEnding::detect(b"one\ntwo"), LineEnding::Lf);
    assert_eq!(LineEnding::detect(b""), LineEnding::Lf);
    assert_eq!(LineEnding::detect(b"lone\rcarriage"), LineEnding::Lf);
    assert_eq!(LineEnding::detect(b"\n\r"), LineEnding::Lf);
}

#[test]
fn apply_lf_keeps_text() {
    assert_eq!(LineEnding::Lf.apply(b("a\r\nb\n")), b("a\r\nb\n"));
}

#[test]
fn apply_crlf_converts_newlines() {
    assert_eq!(LineEnding::Crlf.apply(b("a\nb\n")), b("a\r\nb\r\n"));
}

#[test]
fn apply_crlf_does_not_double_existing_pairs() {
    assert_eq!(LineEnding::Crlf.apply(b("a\r\nb\nc")), b("a\r\nb\r\nc"));
}

#[test]
fn apply_crlf_on_carriage_return_before_pair() {
    // "\r\r\n": the pair is normalized first, then converted back.
    assert_eq!(LineEnding::Crlf.apply(b("\r\r\n")), b("\r\r\n"));
}

#[test]
fn normalized_replaces_pairs_only() {
    assert_eq!(normalized(b"a\r\nb\rc\n"), b("a\nb\rc\n"));
    assert_eq!(normalized(b"\r\r\n"), b("\r\n"));
    assert_eq!(normalized(b""), b(""));
}

#[test]
fn save_round_trip_preserves_content() {
    for text in ["plain", "a\nb", "a\r\nb\n", "\r\r\n", "x\ry\n\n"] {
        for le in [LineEnding::Lf, LineEnding::Crlf] {
            let written = le.apply(b(text));
            assert_eq!(normalized(&written), normalized(text.as_bytes()));
        }
    }
}

#[test]
fn detected_convention_survives_save() {
    for text in ["a\r\nb", "a\nb", "a\rb", "", "\r\n\r\n"] {
        let le = LineEnding::detect(text.as_bytes());
        let written = le.apply(b(text));
        assert_eq!(LineEnding::detect(&written), le);
    }
}

#[test]
fn save_writes_document_convention() {
    assert_eq!(LineEnding::detect(&LineEnding::Crlf.apply(b("a\nb"))), LineEnding::Crlf);
    assert_eq!(LineEnding::detect(&LineEnding::Lf.apply(b("a\nb"))), LineEnding::Lf);
}

#[test]
fn contains_crlf_checks_adjacent_bytes() {
    assert!(contains_crlf_exec(b"\r\n"));
    assert!(!contains_crlf_exec(b"\n\r"));
    assert!(!contains_crlf_exec(b"\r"));
    assert!(!contains_crlf_exec(b""));
}

#[test]
fn lf_to_crlf_converts_every_newline() {
    assert_eq!(lf_to_crlf_exec(b"\n\na"), b("\r\n\r\na"));
}

#[test]
fn occurs_at_bounds() {
    assert!(occurs_at_exec(b"hello", b"llo", 2));
    assert!(!occurs_at_exec(b"hello", b"llo", 3));
    assert!(occurs_at_exec(b"hello", b"", 5));
    assert!(!occurs_at_exec(b"hello", b"", 6));
}

#[test]
fn replace_all_leftmost_without_overlap() {
    assert_eq!(replace_all_exec(b"a-b-c", b"-", b"+"), b("a+b+c"));
    assert_eq!(replace_all_exec(b"aaa", b"aa", b"b"), b("ba"));
    assert_eq!(replace_all_exec(b"abc", b"x", b"y"), b("abc"));
    assert_eq!(replace_all_exec(b"abab", b"ab", b""), b(""));
}

#[test]
fn replace_all_matches_std_replace() {
    let cases = [("one two one", "one", "1"), ("héllo héllo", "é", "e"), ("aaaa", "aa", "a")];
    for (text, from, to) in cases {
        let got = replace_all_exec(text.as_bytes(), from.as_bytes(), to.as_bytes());
        assert_eq!(got, text.replace(from, to).into_bytes());
    }
}

#[test]
fn replace_with_itself_keeps_text() {
    assert_eq!(replace_all_exec(b"xyxyx", b"xy", b"xy"), b("xyxyx"));
}

#[test]
fn crlf_output_is_idempotent_and_well_formed() {
    for text in ["a\nb", "a\r\nb\n", "\r\r\n", "x\ry\n\n", "", "é\nü"] {
        let once = LineEnding::Crlf.apply(b(text));
        assert_eq!(LineEnding::Crlf.apply(once.clone()), once);
        for (i, &byte) in once.iter().enumerate() {
            if byte == b'\n' {
                assert!(i > 0 && once[i - 1] == b'\r');
            }
        }
        let has = |v: &[u8]| v.windows(3).any(|w| w == b"\r\r\n");
        if !has(text.as_bytes()) {
            assert!(!has(&once));
        }
    }
}

#[test]
fn buffer_operations_keep_utf8() {
    let text = "héllo wörld\r\nnaïve → ok\n";
    let replaced = replace_all_exec(text.as_bytes(), "ö".as_bytes(), "oe".as_bytes());
    assert_eq!(String::from_utf8(replaced).unwrap(), "héllo woerld\r\nnaïve → ok\n");
    let saved = LineEnding::Crlf.apply(b(text));
    assert!(String::from_utf8(saved).is_ok());
    assert!(String::from_utf8(normalized(text.as_bytes())).is_ok());
}
