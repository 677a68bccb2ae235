use srcfmt::comments::{find_comments, LineColumn, Span};

fn at(line: usize, column: usize) -> LineColumn {
    LineColumn { line, column }
}

fn span(start: (usize, usize), end: (usize, usize)) -> Span {
    Span { start: at(start.0, start.1), end: at(end.0, end.1) }
}

#[test]
fn empty_text_has_no_comment() {
    assert_eq!(find_comments(""), vec![]);
}

#[test]
fn code_without_comment() {
    assert_eq!(find_comments("fn main() { let x = 1 / 2 * 3; }\n"), vec![]);
}

#[test]
fn line_comment_at_column_one() {
    assert_eq!(find_comments("//comment"), vec![span((1, 1), (1, 9))]);
}

#[test]
fn line_comment_runs_to_the_end_of_its_line() {
    assert_eq!(
        find_comments("let a = 1;\n//comment\nlet b = 2;\n"),
        vec![span((2, 1), (2, 9))]
    );
}

#[test]
fn line_comment_after_code() {
    assert_eq!(find_comments("a // x"), vec![span((1, 3), (1, 6))]);
}

#[test]
fn bare_line_comment_ends_where_it_starts() {
    assert_eq!(find_comments("//"), vec![span((1, 1), (1, 1))]);
    assert_eq!(find_comments("x\n  //\ny"), vec![span((2, 3), (2, 3))]);
}

#[test]
fn doc_line_comment_is_left_out() {
    assert_eq!(find_comments("/// doc"), vec![]);
}

#[test]
fn code_after_three_slashes_is_read_as_code() {
    assert_eq!(find_comments("/// a // b"), vec![span((1, 7), (1, 10))]);
}

#[test]
fn four_slashes_are_an_ordinary_comment() {
    assert_eq!(find_comments("////quad"), vec![span((1, 1), (1, 8))]);
}

#[test]
fn five_slashes_are_an_ordinary_comment() {
    assert_eq!(find_comments("/////five"), vec![span((1, 1), (1, 9))]);
}

#[test]
fn empty_block_comment_has_four_characters() {
    assert_eq!(find_comments("/**/"), vec![span((1, 1), (1, 4))]);
}

#[test]
fn two_empty_block_comments_on_one_line() {
    assert_eq!(
        find_comments("/**/ x /**/"),
        vec![span((1, 1), (1, 4)), span((1, 8), (1, 11))]
    );
}

#[test]
fn doc_block_comment_is_left_out() {
    assert_eq!(find_comments("/** doc"), vec![]);
    assert_eq!(find_comments("/** doc */"), vec![]);
}

#[test]
fn three_stars_open_an_ordinary_block_comment() {
    assert_eq!(find_comments("/*** x */"), vec![span((1, 1), (1, 9))]);
}

#[test]
fn slash_after_three_stars_does_not_close() {
    assert_eq!(find_comments("/***/"), vec![]);
    assert_eq!(find_comments("/***/ */"), vec![span((1, 1), (1, 8))]);
}

#[test]
fn slash_right_after_the_opening_does_not_close() {
    assert_eq!(find_comments("/*/"), vec![]);
    assert_eq!(find_comments("/*/ */"), vec![span((1, 1), (1, 6))]);
}

#[test]
fn block_comment_on_one_line() {
    assert_eq!(find_comments("a /* b */ c"), vec![span((1, 3), (1, 9))]);
}

#[test]
fn block_comments_do_not_nest() {
    assert_eq!(find_comments("/* a /* b */ c */"), vec![span((1, 1), (1, 12))]);
}

#[test]
fn block_comment_over_three_lines() {
    assert_eq!(
        find_comments("/* line1\nline2\nline3 */"),
        vec![span((1, 1), (3, 8))]
    );
}

#[test]
fn unterminated_block_comment_yields_nothing() {
    assert_eq!(find_comments("/* never closed\nmore"), vec![]);
}

#[test]
fn unterminated_block_comment_keeps_earlier_comments() {
    assert_eq!(
        find_comments("// one\n/* never closed"),
        vec![span((1, 1), (1, 6))]
    );
}

#[test]
fn string_literal_hides_comment_signs() {
    assert_eq!(find_comments("\"// not a comment\""), vec![]);
    assert_eq!(find_comments("\"/* not a comment */\""), vec![]);
}

#[test]
fn comment_after_string_literal() {
    assert_eq!(
        find_comments("let s = \"//\"; // yes"),
        vec![span((1, 15), (1, 20))]
    );
}

#[test]
fn string_literal_goes_on_over_lines() {
    assert_eq!(
        find_comments("\"abc\n// not\n\" // yes"),
        vec![span((3, 3), (3, 8))]
    );
}

#[test]
fn unterminated_string_literal_hides_the_rest() {
    assert_eq!(find_comments("\"open\n// hidden\n/* hidden */"), vec![]);
}

#[test]
fn quote_inside_comments_means_nothing() {
    assert_eq!(
        find_comments("// \"\n// x\n/* \" */ // y"),
        vec![span((1, 1), (1, 4)), span((2, 1), (2, 4)), span((3, 1), (3, 7)), span((3, 9), (3, 12))]
    );
}

#[test]
fn raw_string_without_pounds() {
    assert_eq!(find_comments("r\"// no\""), vec![]);
    assert_eq!(find_comments("r\"// no\" // yes"), vec![span((1, 10), (1, 15))]);
}

#[test]
fn raw_string_with_two_pounds() {
    assert_eq!(find_comments("r##\"text with \"# inside\"##"), vec![]);
}

#[test]
fn raw_string_closes_only_with_all_its_pounds() {
    assert_eq!(
        find_comments("r##\"a \"# // no\"## // yes"),
        vec![span((1, 19), (1, 24))]
    );
}

#[test]
fn raw_string_with_many_pounds() {
    let text = "r##########\"// \"######### no\"########## // yes";
    assert_eq!(find_comments(text), vec![span((1, 41), (1, 46))]);
}

#[test]
fn pounds_without_quote_are_code() {
    assert_eq!(find_comments("r#x // c"), vec![span((1, 5), (1, 8))]);
    assert_eq!(find_comments("r## // c"), vec![span((1, 5), (1, 8))]);
}

#[test]
fn raw_string_opening_does_not_reach_over_a_line_end() {
    assert_eq!(find_comments("r#\n// c"), vec![span((2, 1), (2, 4))]);
    assert_eq!(find_comments("r#\n\"// c"), vec![]);
}

#[test]
fn comment_signs_do_not_reach_over_a_line_end() {
    assert_eq!(find_comments("/\n/ x"), vec![]);
    assert_eq!(find_comments("/\n* x */"), vec![]);
    assert_eq!(find_comments("/* x *\n/ // y"), vec![]);
}

#[test]
fn line_comment_on_the_last_line_without_line_feed() {
    assert_eq!(find_comments("x\n/"), vec![]);
    assert_eq!(find_comments("x\n//"), vec![span((2, 1), (2, 1))]);
    assert_eq!(find_comments("x\n// end"), vec![span((2, 1), (2, 6))]);
}

#[test]
fn line_feed_at_the_end_changes_nothing() {
    assert_eq!(find_comments("// a\n"), vec![span((1, 1), (1, 4))]);
    assert_eq!(find_comments("// a\n\n\n"), vec![span((1, 1), (1, 4))]);
}

#[test]
fn empty_lines_are_counted() {
    assert_eq!(find_comments("\n\n// a"), vec![span((3, 1), (3, 4))]);
}

#[test]
fn carriage_return_before_line_feed_ends_the_line() {
    assert_eq!(
        find_comments("// a\r\n// b\r\n"),
        vec![span((1, 1), (1, 4)), span((2, 1), (2, 4))]
    );
}

#[test]
fn lone_carriage_return_belongs_to_the_line() {
    assert_eq!(find_comments("// a\r"), vec![span((1, 1), (1, 5))]);
    assert_eq!(find_comments("// a\rb\n"), vec![span((1, 1), (1, 6))]);
}

#[test]
fn columns_count_characters_not_bytes() {
    assert_eq!(find_comments("\u{e9} // x"), vec![span((1, 3), (1, 6))]);
    assert_eq!(find_comments("// \u{4e2d}\u{6587}"), vec![span((1, 1), (1, 5))]);
    assert_eq!(
        find_comments("/* \u{1f600} */ // z"),
        vec![span((1, 1), (1, 7)), span((1, 9), (1, 12))]
    );
}

#[test]
fn several_comments_in_a_program() {
    let text = "\
// header
fn main() { /* inline */
    let s = \"// text\"; // trailing
    /* spans
       lines */ let t = r#\"/* raw */\"#;
}
//";
    assert_eq!(
        find_comments(text),
        vec![
            span((1, 1), (1, 9)),
            span((2, 13), (2, 24)),
            span((3, 24), (3, 34)),
            span((4, 5), (5, 15)),
            span((7, 1), (7, 1)),
        ]
    );
}

#[test]
fn every_span_ends_at_or_after_its_start() {
    let text = "// a\n/**/ /* b\n*/ x // c\n\"//\" r#\"/*\"# ////d\n/*** e */";
    let spans = find_comments(text);
    assert_eq!(spans.len(), 6);
    for found in spans.iter() {
        assert!(found.start <= found.end);
        assert!((found.start.line, found.start.column) <= (found.end.line, found.end.column));
    }
}

#[test]
fn spans_are_sorted_and_do_not_overlap() {
    let text = "// a\n/**/ /* b\n*/ x // c\n\"//\" r#\"/*\"# ////d\n/*** e */";
    let spans = find_comments(text);
    assert_eq!(
        spans,
        vec![
            span((1, 1), (1, 4)),
            span((2, 1), (2, 4)),
            span((2, 6), (3, 2)),
            span((3, 6), (3, 9)),
            span((4, 14), (4, 18)),
            span((5, 1), (5, 9)),
        ]
    );
    for pair in spans.windows(2) {
        assert!(pair[0].end < pair[1].start);
        assert!(pair[0].start < pair[1].start);
    }
}

#[test]
fn scanning_twice_gives_the_same() {
    let text = "// a\n/* b */ \"c\" r#\"d\"# //// e\n/**/";
    let first = find_comments(text);
    let second = find_comments(text);
    assert_eq!(first, second);
    assert_eq!(first.len(), 4);
}

#[test]
fn positions_are_ordered_by_line_then_column() {
    assert!(at(1, 9) < at(2, 1));
    assert!(at(2, 1) < at(2, 2));
    assert!(at(2, 2) <= at(2, 2));
    assert!(at(3, 1) > at(2, 80));
    assert_eq!(at(4, 5), at(4, 5));
    assert_ne!(at(4, 5), at(5, 4));
}

#[test]
fn default_position_and_span_are_zero() {
    assert_eq!(LineColumn::default(), at(0, 0));
    assert_eq!(Span::default(), span((0, 0), (0, 0)));
}
