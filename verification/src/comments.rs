//! Positions and spans in a source text, and the comment scanner.

use vstd::prelude::*;

pub mod laws;
pub mod model;
pub mod order;
mod scanner;
pub mod signs;
pub mod steps;

use laws::{
    comments_are_disjoint_in_order, comments_are_sorted_by_start, comments_are_well_formed,
    disjoint_in_order, each_well_formed, sorted_by_start,
};
use model::{
    after_line_end, closed_by_line_end, comments_of, first_line, lines_of, scan_line, scan_lines,
    Extent, Position,
};
use scanner::{collect_chars, find_line_feed, read_line, ScanState};
use signs::{comments_start_at_comment_signs, each_at_comment_sign};
use vstd::slice::slice_subrange;

verus! {

/// A place in a text: a line and a column, both counted from 1.
///
/// Columns count characters (Unicode scalar values), not bytes.
#[derive(Debug, Clone, Copy, PartialEq, Eq, Structural, Ord)]
pub struct LineColumn {
    pub line: usize,
    pub column: usize,
}

impl View for LineColumn {
    type V = Position;

    open spec fn view(&self) -> Position {
        Position { line: self.line as nat, column: self.column as nat }
    }
}

impl Default for LineColumn {
    fn default() -> (out: Self)
        ensures
            out.line == 0,
            out.column == 0,
    {
        LineColumn { line: 0, column: 0 }
    }
}

/// The extent of a comment: its first and its last character, delimiters included.
#[derive(Debug, Clone, Copy, PartialEq, Eq, Structural)]
pub struct Span {
    pub start: LineColumn,
    pub end: LineColumn,
}

impl View for Span {
    type V = Extent;

    open spec fn view(&self) -> Extent {
        Extent { start: self.start@, end: self.end@ }
    }
}

/// The extents of a sequence of spans, one for one.
pub open spec fn extents(spans: Seq<Span>) -> Seq<Extent> {
    spans.map_values(|span: Span| span@)
}

impl Default for Span {
    fn default() -> (out: Self)
        ensures
            out.start == (LineColumn { line: 0, column: 0 }),
            out.end == (LineColumn { line: 0, column: 0 }),
    {
        Span { start: LineColumn::default(), end: LineColumn::default() }
    }
}

/// Finds the comments of a source text.
///
/// The text is read once, line by line. Line comments (`//`) and block comments
/// (`/* */`, which do not nest) are reported, each with the position of its first and of
/// its last character; documentation comments (`///`, `/**`) are not. What stands inside a
/// string literal or a raw string literal is never taken for a comment.
///
/// A line ends at a line feed, or at a carriage return followed by a line feed. A line
/// comment ends with its line, and so with the text; a block comment or a string literal
/// that the text leaves open yields nothing. No text is refused.
///
/// The spans come in the order of their starting positions, which are all different, so
/// the result also serves as a map from starting positions to spans.
pub fn find_comments(input: &str) -> (spans: Vec<Span>)
    ensures
        extents(spans@) == comments_of(input@),
        each_well_formed(extents(spans@)),
        disjoint_in_order(extents(spans@)),
        sorted_by_start(extents(spans@)),
        each_at_comment_sign(extents(spans@), lines_of(input@)),
{
    let chars = collect_chars(input);
    let text = chars.as_slice();
    let mut spans: Vec<Span> = Vec::new();
    let mut state = ScanState::Code;
    let mut from: usize = 0;
    let mut lines_read: usize = 0;
    proof {
        assert(text@.skip(0) == input@);
        assert(extents(spans@) + comments_of(input@) == comments_of(input@));
    }
    while from < text.len()
        invariant
            text@ == input@,
            from <= text.len(),
            lines_read <= from,
            extents(spans@) + scan_lines(
                state@,
                lines_of(text@.skip(from as int)),
                (lines_read + 1) as nat,
            ) == comments_of(input@),
        decreases text.len() - from,
    {
        let ghost rest = text@.skip(from as int);
        let ghost before = extents(spans@);
        let ghost lines = lines_of(rest);
        let ghost entered = state@;
        let stop = find_line_feed(text, from);
        let ends_with_return = stop < text.len() && from < stop && text[stop - 1] == '\r';
        let line = slice_subrange(text, from, if ends_with_return { stop - 1 } else { stop });
        let next = if stop < text.len() { stop + 1 } else { stop };
        proof {
            assert(line@ == first_line(rest));
            assert(lines[0] == line@);
            if stop < text.len() {
                assert(rest.skip(stop - from + 1) == text@.skip(next as int));
            }
            assert(lines.drop_first() == lines_of(text@.skip(next as int)));
        }
        let at_end = read_line(state, line, lines_read + 1, &mut spans);
        state = match at_end {
            ScanState::LineComment { start, end } => {
                spans.push(Span { start, end });
                ScanState::Code
            },
            _ => at_end,
        };
        proof {
            let read = scan_line(entered, line@, (lines_read + 1) as nat, 0);
            assert(extents(spans@) == before + read.1 + closed_by_line_end(at_end@));
            assert(state@ == after_line_end(at_end@));
        }
        from = next;
        lines_read = lines_read + 1;
    }
    proof {
        comments_are_well_formed(input@);
        comments_are_disjoint_in_order(input@);
        comments_are_sorted_by_start(input@);
        comments_start_at_comment_signs(input@);
    }
    spans
}

} // verus!
