use std::collections::BTreeMap;

use srcfmt::comments::{find_comments, LineColumn, Span};

#[derive(Clone, Copy)]
enum State {
    Code,
    LineComment { start: LineColumn, end: LineColumn },
    BlockComment { start: LineColumn },
    StringLiteral { pounds: usize },
}

/// A scanner written with the iterators of the standard library: lines by `str::lines`,
/// one character of lookahead by `Peekable`, the result in a map keyed by the start.
fn scan_with_iterators(input: &str) -> BTreeMap<LineColumn, Span> {
    let mut found = BTreeMap::new();
    let mut state = State::Code;
    for (i, line) in input.lines().enumerate() {
        if let State::LineComment { start, end } = state {
            found.insert(start, Span { start, end });
            state = State::Code;
        }
        let mut iterator = line
            .chars()
            .enumerate()
            .map(|(j, c)| (LineColumn { line: i + 1, column: j + 1 }, c))
            .peekable();
        while let Some((pos, c)) = iterator.next() {
            match (state, c) {
                (State::Code, '"') => {
                    state = State::StringLiteral { pounds: 0 };
                }
                (State::Code, 'r') => match iterator.peek() {
                    Some((_, '"')) => {
                        let _ = iterator.next();
                        state = State::StringLiteral { pounds: 0 };
                    }
                    Some((_, '#')) => {
                        let _ = iterator.next();
                        let mut pounds = 1;
                        loop {
                            match iterator.peek() {
                                Some(&(_, '#')) => {
                                    let _ = iterator.next();
                                    pounds += 1;
                                    continue;
                                }
                                Some(&(_, '"')) => {
                                    let _ = iterator.next();
                                    state = State::StringLiteral { pounds };
                                }
                                _ => {}
                            }
                            break;
                        }
                    }
                    _ => {}
                },
                (State::Code, '/') => match iterator.peek() {
                    Some(&(_, '/')) => {
                        let _ = iterator.next();
                        let is_doc_comment = if let Some(&(_, '/')) = iterator.peek() {
                            let _ = iterator.next();
                            if let Some(&(_, '/')) = iterator.peek() {
                                let _ = iterator.next();
                                false
                            } else {
                                true
                            }
                        } else {
                            false
                        };
                        if !is_doc_comment {
                            state = State::LineComment { start: pos, end: pos };
                        }
                    }
                    Some(&(_, '*')) => {
                        let _ = iterator.next();
                        let is_doc_comment = if let Some(&(_, '*')) = iterator.peek() {
                            let _ = iterator.next();
                            match iterator.peek() {
                                Some(&(_, '*')) => {
                                    let _ = iterator.next();
                                    false
                                }
                                Some(&(_, '/')) => {
                                    let _ = iterator.next();
                                    let mut end = pos;
                                    end.column += 3;
                                    found.insert(pos, Span { start: pos, end });
                                    continue;
                                }
                                _ => true,
                            }
                        } else {
                            false
                        };
                        if !is_doc_comment {
                            state = State::BlockComment { start: pos };
                        }
                    }
                    _ => {}
                },
                (State::BlockComment { start }, '*') => {
                    if let Some(&(_, '/')) = iterator.peek() {
                        let _ = iterator.next();
                        let mut end = pos;
                        end.column += 1;
                        found.insert(start, Span { start, end });
                        state = State::Code;
                    }
                }
                (State::LineComment { start, .. }, _) => {
                    state = State::LineComment { start, end: pos };
                }
                (State::StringLiteral { pounds }, '"') => {
                    let closed = (0..pounds).all(|_| {
                        if let Some((_, '#')) = iterator.peek() {
                            let _ = iterator.next();
                            true
                        } else {
                            false
                        }
                    });
                    if closed {
                        state = State::Code;
                    }
                }
                _ => {}
            }
        }
    }
    if let State::LineComment { start, end } = state {
        found.insert(start, Span { start, end });
    }
    found
}

/// Every text of up to `longest` characters over `alphabet`.
fn texts_over(alphabet: &[char], longest: usize) -> Vec<String> {
    let mut all = vec![String::new()];
    let mut last = vec![String::new()];
    for _ in 0..longest {
        let mut next = Vec::new();
        for text in &last {
            for &c in alphabet {
                let mut longer = text.clone();
                longer.push(c);
                next.push(longer);
            }
        }
        all.extend(next.iter().cloned());
        last = next;
    }
    all
}

fn char_at(text: &str, at: LineColumn) -> Option<char> {
    text.lines().nth(at.line.checked_sub(1)?)?.chars().nth(at.column.checked_sub(1)?)
}

#[test]
fn agrees_with_the_iterator_scanner_on_all_short_texts() {
    let texts = texts_over(&['/', '*', '"', '#', 'r', 'x', '\n'], 6);
    assert_eq!(texts.len(), 137_257);
    for text in &texts {
        let expected: Vec<Span> = scan_with_iterators(text).into_values().collect();
        assert_eq!(find_comments(text), expected, "text: {:?}", text);
    }
}

#[test]
fn agrees_with_the_iterator_scanner_on_line_endings() {
    let texts = texts_over(&['/', '*', '\r', '\n', 'x'], 7);
    assert_eq!(texts.len(), 97_656);
    for text in &texts {
        let expected: Vec<Span> = scan_with_iterators(text).into_values().collect();
        assert_eq!(find_comments(text), expected, "text: {:?}", text);
    }
}

#[test]
fn agrees_with_the_iterator_scanner_on_wide_characters() {
    let texts = texts_over(&['/', '*', '"', '\u{e9}', '\u{1f600}', '\n'], 6);
    assert_eq!(texts.len(), 55_987);
    for text in &texts {
        let expected: Vec<Span> = scan_with_iterators(text).into_values().collect();
        assert_eq!(find_comments(text), expected, "text: {:?}", text);
    }
}

#[test]
fn no_two_spans_start_at_the_same_place_on_all_short_texts() {
    for text in &texts_over(&['/', '*', '"', '#', 'r', '\n'], 6) {
        let spans = find_comments(text);
        assert_eq!(scan_with_iterators(text).len(), spans.len(), "text: {:?}", text);
    }
}

#[test]
fn spans_are_well_formed_and_disjoint_on_all_short_texts() {
    for text in &texts_over(&['/', '*', '"', '#', 'r', '\n'], 6) {
        let spans = find_comments(text);
        for found in &spans {
            assert!(found.start <= found.end, "text: {:?}", text);
        }
        for pair in spans.windows(2) {
            assert!(pair[0].end < pair[1].start, "text: {:?}", text);
        }
    }
}

#[test]
fn spans_start_at_comment_signs_on_all_short_texts() {
    for text in &texts_over(&['/', '*', '"', '#', 'r', '\n'], 6) {
        for found in find_comments(text) {
            let behind = LineColumn { line: found.start.line, column: found.start.column + 1 };
            assert_eq!(char_at(text, found.start), Some('/'), "text: {:?}", text);
            assert!(matches!(char_at(text, behind), Some('/') | Some('*')), "text: {:?}", text);
            assert!(char_at(text, found.end).is_some(), "text: {:?}", text);
        }
    }
}
