//! Where comments stand in the text: each starts at a comment sign and ends at a
//! character of the text.

use vstd::prelude::*;

use super::model::{
    after_line_end, comments_of, lines_of, peek, place, scan_line, scan_lines, step,
    step_stays_in_line, Extent, Mode, Position,
};

verus! {

/// The character at a position of a text that is cut into lines, if one stands there.
pub open spec fn char_at(lines: Seq<Seq<char>>, position: Position) -> Option<char> {
    if 1 <= position.line <= lines.len() {
        peek(lines[position.line - 1], position.column - 1)
    } else {
        None
    }
}

/// Whether a comment sign stands at a position: a slash, and a slash or a star behind it.
pub open spec fn comment_sign_at(lines: Seq<Seq<char>>, position: Position) -> bool {
    let behind = char_at(lines, Position { line: position.line, column: position.column + 1 });
    char_at(lines, position) == Some('/') && (behind == Some('/') || behind == Some('*'))
}

/// Every extent starts at a comment sign and ends at a character of the text.
pub open spec fn each_at_comment_sign(found: Seq<Extent>, lines: Seq<Seq<char>>) -> bool {
    forall|i: int|
        0 <= i < found.len() ==> comment_sign_at(lines, (#[trigger] found[i]).start) && char_at(
            lines,
            found[i].end,
        ) is Some
}

/// An open comment began at a comment sign, and a line comment ends at a character.
spec fn opened_at_comment_sign(mode: Mode, lines: Seq<Seq<char>>) -> bool {
    match mode {
        Mode::LineComment { start, end } => comment_sign_at(lines, start) && char_at(lines, end)
            is Some,
        Mode::BlockComment { start } => comment_sign_at(lines, start),
        _ => true,
    }
}

proof fn step_keeps_comment_signs(mode: Mode, lines: Seq<Seq<char>>, line_no: nat, at: int)
    requires
        1 <= line_no <= lines.len(),
        0 <= at < lines[line_no - 1].len(),
        opened_at_comment_sign(mode, lines),
    ensures
        ({
            let after = step(mode, lines[line_no - 1], line_no, at);
            &&& opened_at_comment_sign(after.mode, lines)
            &&& after.found matches Some(extent) ==> comment_sign_at(lines, extent.start)
                && char_at(lines, extent.end) is Some
        }),
{
    let line = lines[line_no - 1];
    assert(char_at(lines, place(line_no, at)) == peek(line, at));
    assert(char_at(lines, place(line_no, at + 1)) == peek(line, at + 1));
    assert(char_at(lines, place(line_no, at + 3)) == peek(line, at + 3));
}

proof fn line_keeps_comment_signs(mode: Mode, lines: Seq<Seq<char>>, line_no: nat, at: int)
    requires
        1 <= line_no <= lines.len(),
        0 <= at <= lines[line_no - 1].len(),
        opened_at_comment_sign(mode, lines),
    ensures
        ({
            let (at_end, found) = scan_line(mode, lines[line_no - 1], line_no, at);
            &&& opened_at_comment_sign(at_end, lines)
            &&& each_at_comment_sign(found, lines)
        }),
    decreases lines[line_no - 1].len() - at,
{
    let line = lines[line_no - 1];
    if at < line.len() {
        let after = step(mode, line, line_no, at);
        step_stays_in_line(mode, line, line_no, at);
        step_keeps_comment_signs(mode, lines, line_no, at);
        line_keeps_comment_signs(after.mode, lines, line_no, after.next);
    }
}

proof fn lines_keep_comment_signs(mode: Mode, lines: Seq<Seq<char>>, read: nat)
    requires
        read <= lines.len(),
        opened_at_comment_sign(mode, lines),
    ensures
        each_at_comment_sign(scan_lines(mode, lines.skip(read as int), read + 1), lines),
    decreases lines.len() - read,
{
    let rest = lines.skip(read as int);
    if rest.len() > 0 {
        assert(rest[0] == lines[read as int]);
        assert(rest.drop_first() == lines.skip(read as int + 1));
        let (at_end, found) = scan_line(mode, rest[0], read + 1, 0);
        line_keeps_comment_signs(mode, lines, read + 1, 0);
        lines_keep_comment_signs(after_line_end(at_end), lines, read + 1);
    }
}

/// Every comment of a text starts at a comment sign of the text, a slash with a slash or
/// a star behind it, and ends at one of its characters.
pub proof fn comments_start_at_comment_signs(text: Seq<char>)
    ensures
        each_at_comment_sign(comments_of(text), lines_of(text)),
{
    assert(lines_of(text).skip(0) == lines_of(text));
    lines_keep_comment_signs(Mode::Code, lines_of(text), 0);
}

} // verus!
