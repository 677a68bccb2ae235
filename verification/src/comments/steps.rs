//! What holds of single steps and of single lines: what opens a comment, what closes
//! one, and what is hidden inside comments and string literals.

use vstd::prelude::*;

use super::model::{
    after_line_end, closed_by_line_end, peek, place, pound_run, scan_line, star_slash_at, step,
    Extent, Mode, Position, Step,
};

verus! {

/// Inside a string literal nothing is looked for but the quote that may close it: a step
/// there finds no comment and opens none, and at any character but a quote it reads that
/// one character and stays in the literal.
pub proof fn string_literal_hides_comments(pounds: nat, line: Seq<char>, line_no: nat, at: int)
    requires
        0 <= at < line.len(),
    ensures
        ({
            let inside = Mode::StringLiteral { pounds };
            let after = step(inside, line, line_no, at);
            &&& after.found is None
            &&& after.mode == inside || after.mode == Mode::Code
            &&& line[at] != '"' ==> after == Step { mode: inside, next: at + 1, found: None }
        }),
{
}

/// Inside a comment a quote opens no string literal: a step there leaves the scanner in
/// the comment or, where a block comment closes, in code.
pub proof fn comment_hides_quotes(mode: Mode, line: Seq<char>, line_no: nat, at: int)
    requires
        0 <= at < line.len(),
        mode is LineComment || mode is BlockComment,
    ensures
        !(step(mode, line, line_no, at).mode is StringLiteral),
        mode is LineComment ==> step(mode, line, line_no, at).mode is LineComment,
{
}

/// A string literal is closed by a quote that is followed by all its pound signs, and by
/// nothing else.
pub proof fn literal_closes_with_all_its_pounds(
    pounds: nat,
    line: Seq<char>,
    line_no: nat,
    at: int,
)
    requires
        0 <= at < line.len(),
    ensures
        step(Mode::StringLiteral { pounds }, line, line_no, at).mode == Mode::Code <==> line[at]
            == '"' && pound_run(line, at + 1) >= pounds,
{
}

/// A string literal that the rest of a line does not close with a quote is still open at
/// the end of the line, whatever else stands there, and nothing is found in it.
pub proof fn string_literal_goes_on_over_lines(
    pounds: nat,
    line: Seq<char>,
    line_no: nat,
    at: int,
)
    requires
        0 <= at <= line.len(),
        forall|i: int| at <= i < line.len() ==> line[i] != '"',
    ensures
        ({
            let inside = Mode::StringLiteral { pounds };
            &&& scan_line(inside, line, line_no, at) == (inside, Seq::<Extent>::empty())
            &&& closed_by_line_end(inside) == Seq::<Extent>::empty()
            &&& after_line_end(inside) == inside
        }),
    decreases line.len() - at,
{
    if at < line.len() {
        string_literal_goes_on_over_lines(pounds, line, line_no, at + 1);
        assert(Seq::<Extent>::empty() + Seq::<Extent>::empty() =~= Seq::<Extent>::empty());
    }
}

/// A line comment, once open, takes the rest of its line: at the end of the line it
/// reaches to the last character, and nothing was found on the way.
pub proof fn line_comment_runs_to_line_end(
    start: Position,
    end: Position,
    line: Seq<char>,
    line_no: nat,
    at: int,
)
    requires
        0 <= at < line.len(),
    ensures
        scan_line(Mode::LineComment { start, end }, line, line_no, at) == (
            Mode::LineComment { start, end: place(line_no, line.len() - 1) },
            Seq::<Extent>::empty(),
        ),
    decreases line.len() - at,
{
    let further = Mode::LineComment { start, end: place(line_no, at) };
    let rest = scan_line(further, line, line_no, at + 1);
    if at + 1 < line.len() {
        line_comment_runs_to_line_end(start, place(line_no, at), line, line_no, at + 1);
    }
    assert(rest.1 =~= Seq::<Extent>::empty());
    assert(Seq::<Extent>::empty() + rest.1 =~= Seq::<Extent>::empty());
}

/// Two slashes in code, with no third behind them or with a fourth, open a line comment
/// that begins at the first slash. Where anything follows those slashes on the line, the
/// comment reaches to the last character of the line.
pub proof fn slashes_open_line_comment(line: Seq<char>, line_no: nat, at: int)
    requires
        0 <= at < line.len(),
        line[at] == '/',
        peek(line, at + 1) == Some('/'),
        peek(line, at + 2) == Some('/') ==> peek(line, at + 3) == Some('/'),
    ensures
        ({
            let here = place(line_no, at);
            let after = step(Mode::Code, line, line_no, at);
            &&& after.mode == Mode::LineComment { start: here, end: here }
            &&& after.found is None
            &&& after.next < line.len() ==> scan_line(Mode::Code, line, line_no, at) == (
                Mode::LineComment { start: here, end: place(line_no, line.len() - 1) },
                Seq::<Extent>::empty(),
            )
        }),
{
    let here = place(line_no, at);
    let after = step(Mode::Code, line, line_no, at);
    if after.next < line.len() {
        line_comment_runs_to_line_end(here, here, line, line_no, after.next);
        assert(Seq::<Extent>::empty() + Seq::<Extent>::empty() =~= Seq::<Extent>::empty());
    }
}

/// Documentation comments open nothing: after exactly three slashes, and after a slash
/// and two stars that neither a third star nor a slash follows, the scanner is in code
/// and has found nothing.
pub proof fn doc_comments_open_nothing(line: Seq<char>, line_no: nat, at: int)
    requires
        0 <= at < line.len(),
        line[at] == '/',
    ensures
        peek(line, at + 1) == Some('/') && peek(line, at + 2) == Some('/') && peek(line, at + 3)
            != Some('/') ==> step(Mode::Code, line, line_no, at) == (Step {
            mode: Mode::Code,
            next: at + 3,
            found: None,
        }),
        peek(line, at + 1) == Some('*') && peek(line, at + 2) == Some('*') && peek(line, at + 3)
            != Some('*') && peek(line, at + 3) != Some('/') ==> step(
            Mode::Code,
            line,
            line_no,
            at,
        ) == (Step { mode: Mode::Code, next: at + 3, found: None }),
{
}

/// `/**/` in code is a whole comment of four characters, found at once.
pub proof fn empty_block_comment_is_found_at_once(line: Seq<char>, line_no: nat, at: int)
    requires
        0 <= at < line.len(),
        line[at] == '/',
        peek(line, at + 1) == Some('*'),
        peek(line, at + 2) == Some('*'),
        peek(line, at + 3) == Some('/'),
    ensures
        step(Mode::Code, line, line_no, at) == (Step {
            mode: Mode::Code,
            next: at + 4,
            found: Some(Extent { start: place(line_no, at), end: place(line_no, at + 3) }),
        }),
{
}

/// A block comment is closed by a star and a slash and by nothing else, and the comment
/// that is found then reaches from where it was opened to that slash.
pub proof fn block_comment_closes_at_star_slash(
    start: Position,
    line: Seq<char>,
    line_no: nat,
    at: int,
)
    requires
        0 <= at < line.len(),
    ensures
        ({
            let inside = Mode::BlockComment { start };
            let after = step(inside, line, line_no, at);
            if star_slash_at(line, at) {
                after == Step {
                    mode: Mode::Code,
                    next: at + 2,
                    found: Some(Extent { start, end: place(line_no, at + 1) }),
                }
            } else {
                after == Step { mode: inside, next: at + 1, found: None }
            }
        }),
{
}

/// A block comment that the rest of a line does not close is still open at the end of
/// the line, and the end of the line does not close it either.
pub proof fn block_comment_goes_on_over_lines(
    start: Position,
    line: Seq<char>,
    line_no: nat,
    at: int,
)
    requires
        0 <= at <= line.len(),
        forall|i: int| at <= i < line.len() ==> !star_slash_at(line, i),
    ensures
        ({
            let inside = Mode::BlockComment { start };
            &&& scan_line(inside, line, line_no, at) == (inside, Seq::<Extent>::empty())
            &&& closed_by_line_end(inside) == Seq::<Extent>::empty()
            &&& after_line_end(inside) == inside
        }),
    decreases line.len() - at,
{
    if at < line.len() {
        block_comment_goes_on_over_lines(start, line, line_no, at + 1);
        assert(!star_slash_at(line, at));
        assert(Seq::<Extent>::empty() + Seq::<Extent>::empty() =~= Seq::<Extent>::empty());
    }
}

} // verus!
