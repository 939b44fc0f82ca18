use cosmic_markdown::search::{find_matches, line_match_ranges, Match};

fn m(line: usize, start: usize, end: usize) -> Match {
    Match { line, start, end }
}

#[test]
fn line_ranges_are_non_overlapping() {
    assert_eq!(line_match_ranges(b"abab", b"ab"), vec![(0, 2), (2, 4)]);
    assert_eq!(line_match_ranges(b"aaa", b"aa"), vec![(0, 2)]);
    assert_eq!(line_match_ranges(b"aaaa", b"aa"), vec![(0, 2), (2, 4)]);
}

#[test]
fn line_ranges_empty_query_matches_nothing() {
    assert_eq!(line_match_ranges(b"abc", b""), Vec::<(usize, usize)>::new());
}

#[test]
fn line_ranges_query_longer_than_line() {
    assert_eq!(line_match_ranges(b"ab", b"abc"), Vec::<(usize, usize)>::new());
}

#[test]
fn line_ranges_are_byte_offsets() {
    // "é" is two bytes in UTF-8.
    assert_eq!(line_match_ranges("éx éx".as_bytes(), b"x"), vec![(2, 3), (6, 7)]);
}

#[test]
fn matches_per_line() {
    let found = find_matches(b"x ab\nab\nzz ab", b"ab");
    assert_eq!(found, vec![m(0, 2, 4), m(1, 0, 2), m(2, 3, 5)]);
}

#[test]
fn matches_skip_crlf_terminator() {
    // The "\r" of a "\r\n" terminator is not part of the line.
    let found = find_matches(b"ab\r\nb\r", b"b\r");
    assert_eq!(found, vec![m(1, 0, 2)]);
}

#[test]
fn matches_do_not_cross_lines() {
    assert_eq!(find_matches(b"a\nb", b"a\nb"), Vec::<Match>::new());
}

#[test]
fn matches_count_empty_lines() {
    let found = find_matches(b"\n\nq", b"q");
    assert_eq!(found, vec![m(2, 0, 1)]);
}

#[test]
fn matches_agree_with_str_lines_and_find() {
    let text = "find me\r\nfind find\n\nnothing\nlast find";
    let query = "find";
    let mut expected = Vec::new();
    for (line, content) in text.lines().enumerate() {
        let mut from = 0;
        while let Some(offset) = content[from..].find(query) {
            let start = from + offset;
            let end = start + query.len();
            expected.push(m(line, start, end));
            from = end.max(start + 1);
        }
    }
    assert_eq!(find_matches(text.as_bytes(), query.as_bytes()), expected);
}

#[test]
fn highlight_ranges_are_increasing_disjoint_occurrences() {
    let line = "ééé aéé éé".as_bytes();
    let query = "éé".as_bytes();
    let ranges = line_match_ranges(line, query);
    assert_eq!(ranges.len(), 3);
    for (k, &(s, e)) in ranges.iter().enumerate() {
        assert_eq!(&line[s..e], query);
        // Both ends are character boundaries of the line.
        let text = std::str::from_utf8(line).unwrap();
        assert!(text.is_char_boundary(s) && text.is_char_boundary(e));
        if k + 1 < ranges.len() {
            assert!(e <= ranges[k + 1].0);
        }
    }
}

#[test]
fn highlight_per_line_equals_find_matches() {
    let text = "ab ab\r\nxx\nab\n\naba ab";
    let query = b"ab";
    let found = find_matches(text.as_bytes(), query);
    for (i, line) in text.lines().enumerate() {
        let on_line: Vec<(usize, usize)> = found
            .iter()
            .filter(|m| m.line == i)
            .map(|m| (m.start, m.end))
            .collect();
        assert_eq!(line_match_ranges(line.as_bytes(), query), on_line);
    }
}
