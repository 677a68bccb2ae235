//! The mathematical model of the scanner: what the comments of a text are.
//!
//! A text is a sequence of characters. It is cut into lines, each line is read from left
//! to right by a small state machine, and the comments that the machine closes are
//! collected in the order in which they close.

use vstd::prelude::*;

verus! {

/// A place in a text, as a pair of natural numbers counted from 1.
pub struct Position {
    pub line: nat,
    pub column: nat,
}

impl Position {
    /// Strictly earlier in reading order: by line first, then by column.
    pub open spec fn lt(self, other: Position) -> bool {
        self.line < other.line || (self.line == other.line && self.column < other.column)
    }

    /// Earlier in reading order, or the same place.
    pub open spec fn le(self, other: Position) -> bool {
        self.line < other.line || (self.line == other.line && self.column <= other.column)
    }
}

/// A stretch of text from `start` to `end`, both included.
pub struct Extent {
    pub start: Position,
    pub end: Position,
}

/// What the scanner is inside of.
pub enum Mode {
    /// Ordinary code.
    Code,
    /// A line comment that began at `start`; `end` is the last character read into it.
    LineComment { start: Position, end: Position },
    /// A block comment that began at `start` and has not been closed.
    BlockComment { start: Position },
    /// A string literal that closes with a quote followed by `pounds` pound signs.
    StringLiteral { pounds: nat },
}

/// The outcome of reading at one place of a line.
pub struct Step {
    /// The mode after it.
    pub mode: Mode,
    /// The index in the line at which reading goes on.
    pub next: int,
    /// The comment that was closed, if one was.
    pub found: Option<Extent>,
}

/// The character at index `at` of a line, if the line reaches that far.
pub open spec fn peek(line: Seq<char>, at: int) -> Option<char> {
    if 0 <= at < line.len() {
        Some(line[at])
    } else {
        None
    }
}

/// How many pound signs stand in a row in `line` from index `from` on.
pub open spec fn pound_run(line: Seq<char>, from: int) -> nat
    decreases line.len() - from,
{
    if 0 <= from < line.len() && line[from] == '#' {
        1 + pound_run(line, from + 1)
    } else {
        0
    }
}

/// The position of index `at` in line number `line_no`.
pub open spec fn place(line_no: nat, at: int) -> Position {
    Position { line: line_no, column: (at + 1) as nat }
}

/// Reading an `r` in code: it opens a raw string literal when a quote follows, at once or
/// after a run of pound signs. A run that no quote follows is ordinary code.
pub open spec fn step_raw_string(line: Seq<char>, at: int) -> Step {
    if peek(line, at + 1) == Some('"') {
        Step { mode: Mode::StringLiteral { pounds: 0 }, next: at + 2, found: None }
    } else if peek(line, at + 1) == Some('#') {
        let run = pound_run(line, at + 1);
        if peek(line, at + 1 + run) == Some('"') {
            Step { mode: Mode::StringLiteral { pounds: run }, next: at + 2 + run, found: None }
        } else {
            Step { mode: Mode::Code, next: at + 1 + run, found: None }
        }
    } else {
        Step { mode: Mode::Code, next: at + 1, found: None }
    }
}

/// Reading a `/` in code.
///
/// Two slashes open a line comment, unless exactly three stand there, which is a
/// documentation comment and opens nothing; four or more open a line comment again.
/// A slash and a star open a block comment, with three exceptions: `/**/` is a whole
/// comment of four characters; two stars followed by anything else is a documentation
/// comment and opens nothing; with a third star it is a block comment again.
pub open spec fn step_slash(line: Seq<char>, line_no: nat, at: int) -> Step {
    let here = place(line_no, at);
    let line_comment = Mode::LineComment { start: here, end: here };
    let block_comment = Mode::BlockComment { start: here };
    if peek(line, at + 1) == Some('/') {
        if peek(line, at + 2) == Some('/') {
            if peek(line, at + 3) == Some('/') {
                Step { mode: line_comment, next: at + 4, found: None }
            } else {
                Step { mode: Mode::Code, next: at + 3, found: None }
            }
        } else {
            Step { mode: line_comment, next: at + 2, found: None }
        }
    } else if peek(line, at + 1) == Some('*') {
        if peek(line, at + 2) == Some('*') {
            if peek(line, at + 3) == Some('*') {
                Step { mode: block_comment, next: at + 4, found: None }
            } else if peek(line, at + 3) == Some('/') {
                Step {
                    mode: Mode::Code,
                    next: at + 4,
                    found: Some(Extent { start: here, end: place(line_no, at + 3) }),
                }
            } else {
                Step { mode: Mode::Code, next: at + 3, found: None }
            }
        } else {
            Step { mode: block_comment, next: at + 2, found: None }
        }
    } else {
        Step { mode: Mode::Code, next: at + 1, found: None }
    }
}

/// Reading a quote inside a string literal that wants `pounds` pound signs after it: the
/// pound signs that follow are read, up to `pounds` of them, and the literal is closed
/// when all of them were there.
pub open spec fn step_quote(line: Seq<char>, at: int, pounds: nat) -> Step {
    let run = pound_run(line, at + 1);
    if run >= pounds {
        Step { mode: Mode::Code, next: at + 1 + pounds, found: None }
    } else {
        Step { mode: Mode::StringLiteral { pounds }, next: at + 1 + run, found: None }
    }
}

/// Whether a star and a slash stand at index `at` of a line.
pub open spec fn star_slash_at(line: Seq<char>, at: int) -> bool {
    peek(line, at) == Some('*') && peek(line, at + 1) == Some('/')
}

/// Reading at index `at` of line number `line_no` in mode `mode`.
pub open spec fn step(mode: Mode, line: Seq<char>, line_no: nat, at: int) -> Step
    recommends
        0 <= at < line.len(),
{
    let stay = Step { mode, next: at + 1, found: None };
    match mode {
        Mode::Code => {
            if line[at] == '"' {
                Step { mode: Mode::StringLiteral { pounds: 0 }, next: at + 1, found: None }
            } else if line[at] == 'r' {
                step_raw_string(line, at)
            } else if line[at] == '/' {
                step_slash(line, line_no, at)
            } else {
                stay
            }
        },
        Mode::LineComment { start, end: _ } => Step {
            mode: Mode::LineComment { start, end: place(line_no, at) },
            next: at + 1,
            found: None,
        },
        Mode::BlockComment { start } => {
            if star_slash_at(line, at) {
                Step {
                    mode: Mode::Code,
                    next: at + 2,
                    found: Some(Extent { start, end: place(line_no, at + 1) }),
                }
            } else {
                stay
            }
        },
        Mode::StringLiteral { pounds } => {
            if line[at] == '"' {
                step_quote(line, at, pounds)
            } else {
                stay
            }
        },
    }
}

/// A comment that was found or not, as a sequence of at most one.
pub open spec fn found_seq(found: Option<Extent>) -> Seq<Extent> {
    match found {
        Some(extent) => seq![extent],
        None => Seq::empty(),
    }
}

/// Reading line number `line_no` from index `at` to its end: the mode at the end of the
/// line, and the comments closed on the way.
pub open spec fn scan_line(mode: Mode, line: Seq<char>, line_no: nat, at: int) -> (Mode, Seq<Extent>)
    decreases line.len() - at,
    via scan_line_goes_forward
{
    if 0 <= at < line.len() {
        let here = step(mode, line, line_no, at);
        let rest = scan_line(here.mode, line, line_no, here.next);
        (rest.0, found_seq(here.found) + rest.1)
    } else {
        (mode, Seq::empty())
    }
}

#[via_fn]
proof fn scan_line_goes_forward(mode: Mode, line: Seq<char>, line_no: nat, at: int) {
    if 0 <= at < line.len() {
        step_stays_in_line(mode, line, line_no, at);
    }
}

/// A run of pound signs ends within the line, and is followed by something else.
pub proof fn pound_run_stays_in_line(line: Seq<char>, from: int)
    requires
        0 <= from <= line.len(),
    ensures
        from + pound_run(line, from) <= line.len(),
        peek(line, from + pound_run(line, from)) != Some('#'),
        forall|i: int| from <= i < from + pound_run(line, from) ==> line[i] == '#',
    decreases line.len() - from,
{
    if from < line.len() && line[from] == '#' {
        pound_run_stays_in_line(line, from + 1);
    }
}

/// Every step reads at least one character, and none beyond the end of the line.
pub proof fn step_stays_in_line(mode: Mode, line: Seq<char>, line_no: nat, at: int)
    requires
        0 <= at < line.len(),
    ensures
        at < step(mode, line, line_no, at).next <= line.len(),
{
    pound_run_stays_in_line(line, at + 1);
}

/// What the end of a line closes: a line comment, and nothing else.
pub open spec fn closed_by_line_end(mode: Mode) -> Seq<Extent> {
    match mode {
        Mode::LineComment { start, end } => seq![Extent { start, end }],
        _ => Seq::empty(),
    }
}

/// The mode in which the next line begins. Block comments and string literals go on.
pub open spec fn after_line_end(mode: Mode) -> Mode {
    match mode {
        Mode::LineComment { .. } => Mode::Code,
        _ => mode,
    }
}

/// How many characters stand before the first line feed of `text`; its length if it
/// has none.
pub open spec fn first_line_feed(text: Seq<char>) -> nat
    decreases text.len(),
{
    if text.len() == 0 || text[0] == '\n' {
        0
    } else {
        1 + first_line_feed(text.drop_first())
    }
}

/// The first line of a non-empty `text`, without what ends it: a line feed, or a
/// carriage return and a line feed. A carriage return that no line feed follows belongs
/// to the line.
pub open spec fn first_line(text: Seq<char>) -> Seq<char> {
    let feed = first_line_feed(text) as int;
    if feed < text.len() && feed > 0 && text[feed - 1] == '\r' {
        text.subrange(0, feed - 1)
    } else {
        text.subrange(0, feed)
    }
}

/// The lines of a text. A line feed at the very end begins no further line, and the
/// empty text has no line.
pub open spec fn lines_of(text: Seq<char>) -> Seq<Seq<char>>
    decreases text.len(),
{
    let feed = first_line_feed(text) as int;
    if text.len() == 0 {
        Seq::empty()
    } else if feed >= text.len() {
        seq![first_line(text)]
    } else {
        seq![first_line(text)] + lines_of(text.skip(feed + 1))
    }
}

/// Reading `lines`, the first of which has number `line_no`, starting in mode `mode`.
pub open spec fn scan_lines(mode: Mode, lines: Seq<Seq<char>>, line_no: nat) -> Seq<Extent>
    decreases lines.len(),
{
    if lines.len() == 0 {
        Seq::empty()
    } else {
        let (at_end, found) = scan_line(mode, lines[0], line_no, 0);
        found + closed_by_line_end(at_end) + scan_lines(
            after_line_end(at_end),
            lines.drop_first(),
            line_no + 1,
        )
    }
}

/// The comments of a text, in the order of their first characters.
///
/// A block comment or a string literal that the text does not close yields nothing; a
/// line comment on the last line is closed by the end of the text.
pub open spec fn comments_of(text: Seq<char>) -> Seq<Extent> {
    scan_lines(Mode::Code, lines_of(text), 1)
}

} // verus!
