//! The scanner itself: executable code that computes what the model describes.

use vstd::prelude::*;

use super::model::{
    first_line_feed, found_seq, peek, place, pound_run, pound_run_stays_in_line, scan_line, step,
    step_quote, step_raw_string, step_slash, step_stays_in_line, Mode, Step,
};
use super::{extents, LineColumn, Span};

verus! {

/// What the scanner is inside of.
#[derive(Debug, Clone, Copy)]
pub enum ScanState {
    /// Ordinary code.
    Code,
    /// A line comment that began at `start`; `end` is the last character read into it.
    LineComment { start: LineColumn, end: LineColumn },
    /// A block comment that began at `start` and has not been closed.
    BlockComment { start: LineColumn },
    /// A string literal that closes with a quote followed by `pounds` pound signs.
    StringLiteral { pounds: usize },
}

impl View for ScanState {
    type V = Mode;

    open spec fn view(&self) -> Mode {
        match *self {
            ScanState::Code => Mode::Code,
            ScanState::LineComment { start, end } => Mode::LineComment {
                start: start@,
                end: end@,
            },
            ScanState::BlockComment { start } => Mode::BlockComment { start: start@ },
            ScanState::StringLiteral { pounds } => Mode::StringLiteral { pounds: pounds as nat },
        }
    }
}

/// Where the scanner stands after one step, and what the step found.
pub struct Advance {
    pub state: ScanState,
    pub next: usize,
    pub found: Option<Span>,
}

impl View for Advance {
    type V = Step;

    open spec fn view(&self) -> Step {
        Step {
            mode: self.state@,
            next: self.next as int,
            found: match self.found {
                Some(span) => Some(span@),
                None => None,
            },
        }
    }
}

/// The character at index `at` of a line, if the line reaches that far.
fn peek_at(line: &[char], at: usize) -> (c: Option<char>)
    ensures
        c == peek(line@, at as int),
{
    if at < line.len() {
        Some(line[at])
    } else {
        None
    }
}

/// Counts the pound signs that stand in a row from index `from` on, but no more than `cap`.
fn count_pounds(line: &[char], from: usize, cap: usize) -> (count: usize)
    requires
        from <= line.len(),
    ensures
        count <= cap,
        count <= pound_run(line@, from as int),
        count < cap ==> count == pound_run(line@, from as int),
        from + count <= line.len(),
{
    let mut count: usize = 0;
    while count < cap && from + count < line.len() && line[from + count] == '#'
        invariant
            from + count <= line.len(),
            count <= cap,
            pound_run(line@, from as int) == count + pound_run(line@, from + count),
        decreases line.len() - from - count,
    {
        count = count + 1;
    }
    count
}

/// The position of index `at` in line number `line_no`.
fn place_of(line_no: usize, at: usize) -> (here: LineColumn)
    requires
        at < usize::MAX,
    ensures
        here@ == place(line_no as nat, at as int),
{
    LineColumn { line: line_no, column: at + 1 }
}

/// Reads an `r` in code, at index `at`.
fn read_raw_string_start(line: &[char], at: usize) -> (out: Advance)
    requires
        at < line.len(),
    ensures
        out@ == step_raw_string(line@, at as int),
{
    let after = peek_at(line, at + 1);
    if after == Some('"') {
        Advance { state: ScanState::StringLiteral { pounds: 0 }, next: at + 2, found: None }
    } else if after == Some('#') {
        let run = count_pounds(line, at + 1, line.len());
        proof {
            pound_run_stays_in_line(line@, at + 1);
        }
        if peek_at(line, at + 1 + run) == Some('"') {
            Advance { state: ScanState::StringLiteral { pounds: run }, next: at + 2 + run, found: None }
        } else {
            Advance { state: ScanState::Code, next: at + 1 + run, found: None }
        }
    } else {
        Advance { state: ScanState::Code, next: at + 1, found: None }
    }
}

/// Reads a `/` in code, at index `at` of line number `line_no`.
fn read_slash(line: &[char], line_no: usize, at: usize) -> (out: Advance)
    requires
        at < line.len(),
    ensures
        out@ == step_slash(line@, line_no as nat, at as int),
{
    let here = place_of(line_no, at);
    let line_comment = ScanState::LineComment { start: here, end: here };
    let block_comment = ScanState::BlockComment { start: here };
    let after = peek_at(line, at + 1);
    if after == Some('/') {
        if peek_at(line, at + 2) == Some('/') {
            if peek_at(line, at + 3) == Some('/') {
                Advance { state: line_comment, next: at + 4, found: None }
            } else {
                Advance { state: ScanState::Code, next: at + 3, found: None }
            }
        } else {
            Advance { state: line_comment, next: at + 2, found: None }
        }
    } else if after == Some('*') {
        if peek_at(line, at + 2) == Some('*') {
            let third = peek_at(line, at + 3);
            if third == Some('*') {
                Advance { state: block_comment, next: at + 4, found: None }
            } else if third == Some('/') {
                let end = place_of(line_no, at + 3);
                Advance {
                    state: ScanState::Code,
                    next: at + 4,
                    found: Some(Span { start: here, end }),
                }
            } else {
                Advance { state: ScanState::Code, next: at + 3, found: None }
            }
        } else {
            Advance { state: block_comment, next: at + 2, found: None }
        }
    } else {
        Advance { state: ScanState::Code, next: at + 1, found: None }
    }
}

/// Reads a quote at index `at`, inside a string literal that wants `pounds` pound signs.
fn read_quote(line: &[char], at: usize, pounds: usize) -> (out: Advance)
    requires
        at < line.len(),
    ensures
        out@ == step_quote(line@, at as int, pounds as nat),
{
    let run = count_pounds(line, at + 1, pounds);
    if run == pounds {
        Advance { state: ScanState::Code, next: at + 1 + pounds, found: None }
    } else {
        Advance { state: ScanState::StringLiteral { pounds }, next: at + 1 + run, found: None }
    }
}

/// Reads at index `at` of line number `line_no` in state `state`.
pub(crate) fn read_at(state: ScanState, line: &[char], line_no: usize, at: usize) -> (out: Advance)
    requires
        at < line.len(),
    ensures
        out@ == step(state@, line@, line_no as nat, at as int),
{
    let c = line[at];
    let stay = Advance { state, next: at + 1, found: None };
    match state {
        ScanState::Code => {
            if c == '"' {
                Advance { state: ScanState::StringLiteral { pounds: 0 }, next: at + 1, found: None }
            } else if c == 'r' {
                read_raw_string_start(line, at)
            } else if c == '/' {
                read_slash(line, line_no, at)
            } else {
                stay
            }
        },
        ScanState::LineComment { start, end: _ } => Advance {
            state: ScanState::LineComment { start, end: place_of(line_no, at) },
            next: at + 1,
            found: None,
        },
        ScanState::BlockComment { start } => {
            if c == '*' && peek_at(line, at + 1) == Some('/') {
                let end = place_of(line_no, at + 1);
                Advance { state: ScanState::Code, next: at + 2, found: Some(Span { start, end }) }
            } else {
                stay
            }
        },
        ScanState::StringLiteral { pounds } => {
            if c == '"' {
                read_quote(line, at, pounds)
            } else {
                stay
            }
        },
    }
}

/// Reads a whole line, number `line_no`, beginning in state `state`. The comments that are
/// closed on the way are appended to `spans`; the state at the end of the line is returned.
pub(crate) fn read_line(
    state: ScanState,
    line: &[char],
    line_no: usize,
    spans: &mut Vec<Span>,
) -> (at_end: ScanState)
    ensures
        at_end@ == scan_line(state@, line@, line_no as nat, 0).0,
        extents(final(spans)@) == extents(old(spans)@) + scan_line(
            state@,
            line@,
            line_no as nat,
            0,
        ).1,
{
    let mut current = state;
    let mut at: usize = 0;
    while at < line.len()
        invariant
            at <= line.len(),
            scan_line(current@, line@, line_no as nat, at as int).0 == scan_line(
                state@,
                line@,
                line_no as nat,
                0,
            ).0,
            extents(spans@) + scan_line(current@, line@, line_no as nat, at as int).1 == extents(
                old(spans)@,
            ) + scan_line(state@, line@, line_no as nat, 0).1,
        decreases line.len() - at,
    {
        let advance = read_at(current, line, line_no, at);
        proof {
            step_stays_in_line(current@, line@, line_no as nat, at as int);
        }
        let ghost before = extents(spans@);
        if let Some(span) = advance.found {
            spans.push(span);
        }
        assert(extents(spans@) == before + found_seq(advance@.found));
        current = advance.state;
        at = advance.next;
    }
    current
}

/// The index of the first line feed of `text` at or after `from`; the length of `text` if
/// there is none.
pub(crate) fn find_line_feed(text: &[char], from: usize) -> (stop: usize)
    requires
        from <= text.len(),
    ensures
        from <= stop <= text.len(),
        stop - from == first_line_feed(text@.skip(from as int)),
        stop < text.len() ==> text[stop as int] == '\n',
{
    let mut stop: usize = from;
    while stop < text.len() && text[stop] != '\n'
        invariant
            from <= stop <= text.len(),
            first_line_feed(text@.skip(from as int)) == (stop - from) + first_line_feed(
                text@.skip(stop as int),
            ),
        decreases text.len() - stop,
    {
        assert(text@.skip(stop as int).drop_first() == text@.skip(stop + 1));
        stop = stop + 1;
    }
    stop
}

/// The characters of a string, in a vector.
pub(crate) fn collect_chars(input: &str) -> (chars: Vec<char>)
    ensures
        chars@ == input@,
{
    let mut chars: Vec<char> = Vec::new();
    for c in it: input.chars()
        invariant
            it.seq() == input@,
            chars@ == input@.take(it.index() as int),
    {
        chars.push(c);
    }
    chars
}

} // verus!
