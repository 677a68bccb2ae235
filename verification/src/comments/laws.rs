//! What holds of the comments of every text: each ends no earlier than it begins, they
//! follow one another without overlap, and they depend on nothing but the text.

use vstd::prelude::*;

use super::model::{
    after_line_end, comments_of, lines_of, place, pound_run_stays_in_line, scan_line,
    scan_lines, step, step_stays_in_line, Extent, Mode, Position,
};
use super::{extents, Span};

verus! {

/// Every extent ends at or after its start.
pub open spec fn each_well_formed(found: Seq<Extent>) -> bool {
    forall|i: int| 0 <= i < found.len() ==> (#[trigger] found[i]).start.le(found[i].end)
}

/// Every extent ends before the next one starts: the extents are sorted by their starts,
/// and no two of them share a character.
pub open spec fn disjoint_in_order(found: Seq<Extent>) -> bool {
    forall|i: int, j: int|
        0 <= i < j < found.len() ==> (#[trigger] found[i]).end.lt((#[trigger] found[j]).start)
}

/// Every extent starts before the next one does: no two start at the same place.
pub open spec fn sorted_by_start(found: Seq<Extent>) -> bool {
    forall|i: int, j: int|
        0 <= i < j < found.len() ==> (#[trigger] found[i]).start.lt((#[trigger] found[j]).start)
}

/// Every extent lies between `low`, included, and `high`, excluded.
spec fn between(found: Seq<Extent>, low: Position, high: Position) -> bool {
    forall|i: int|
        0 <= i < found.len() ==> low.le((#[trigger] found[i]).start) && found[i].end.lt(high)
}

/// Every extent starts at `low` or later.
spec fn not_before(found: Seq<Extent>, low: Position) -> bool {
    forall|i: int| 0 <= i < found.len() ==> low.le((#[trigger] found[i]).start)
}

/// The earliest place at which a comment that is closed from now on can begin: the start
/// of the comment that is open, or else the place where the scanner stands.
spec fn earliest(mode: Mode, here: Position) -> Position {
    match mode {
        Mode::LineComment { start, end: _ } => start,
        Mode::BlockComment { start } => start,
        _ => here,
    }
}

/// An open comment began before the place where the scanner stands, and a line comment
/// ends before it too, and no earlier than it began.
spec fn behind(mode: Mode, here: Position) -> bool {
    match mode {
        Mode::LineComment { start, end } => start.le(end) && end.lt(here),
        Mode::BlockComment { start } => start.lt(here),
        _ => true,
    }
}

proof fn step_keeps_order(mode: Mode, line: Seq<char>, line_no: nat, at: int)
    requires
        0 <= at < line.len(),
        behind(mode, place(line_no, at)),
    ensures
        ({
            let here = place(line_no, at);
            let after = step(mode, line, line_no, at);
            let there = place(line_no, after.next);
            &&& behind(after.mode, there)
            &&& earliest(mode, here).le(earliest(after.mode, there))
            &&& after.found matches Some(extent) ==> {
                &&& earliest(mode, here).le(extent.start)
                &&& extent.start.le(extent.end)
                &&& extent.end.lt(earliest(after.mode, there))
            }
        }),
{
    pound_run_stays_in_line(line, at + 1);
}

proof fn line_keeps_order(mode: Mode, line: Seq<char>, line_no: nat, at: int)
    requires
        0 <= at <= line.len(),
        behind(mode, place(line_no, at)),
    ensures
        ({
            let here = place(line_no, at);
            let line_end = place(line_no, line.len() as int);
            let (at_end, found) = scan_line(mode, line, line_no, at);
            &&& behind(at_end, line_end)
            &&& earliest(mode, here).le(earliest(at_end, line_end))
            &&& between(found, earliest(mode, here), earliest(at_end, line_end))
            &&& each_well_formed(found)
            &&& disjoint_in_order(found)
        }),
    decreases line.len() - at,
{
    if at < line.len() {
        let after = step(mode, line, line_no, at);
        step_stays_in_line(mode, line, line_no, at);
        step_keeps_order(mode, line, line_no, at);
        line_keeps_order(after.mode, line, line_no, after.next);
    }
}

proof fn lines_keep_order(mode: Mode, lines: Seq<Seq<char>>, line_no: nat)
    requires
        behind(mode, place(line_no, 0)),
        !(mode is LineComment),
    ensures
        not_before(scan_lines(mode, lines, line_no), earliest(mode, place(line_no, 0))),
        each_well_formed(scan_lines(mode, lines, line_no)),
        disjoint_in_order(scan_lines(mode, lines, line_no)),
    decreases lines.len(),
{
    if lines.len() > 0 {
        let at_end = scan_line(mode, lines[0], line_no, 0).0;
        line_keeps_order(mode, lines[0], line_no, 0);
        lines_keep_order(after_line_end(at_end), lines.drop_first(), line_no + 1);
    }
}

/// Every comment of a text ends at or after its start.
pub proof fn comments_are_well_formed(text: Seq<char>)
    ensures
        each_well_formed(comments_of(text)),
{
    lines_keep_order(Mode::Code, lines_of(text), 1);
}

/// The comments of a text come sorted by their starts, and no two of them overlap: each
/// ends before the next one starts.
pub proof fn comments_are_disjoint_in_order(text: Seq<char>)
    ensures
        disjoint_in_order(comments_of(text)),
{
    lines_keep_order(Mode::Code, lines_of(text), 1);
}

/// The comments of a text come in the order of their starts, and no two of them start at
/// the same place.
pub proof fn comments_are_sorted_by_start(text: Seq<char>)
    ensures
        sorted_by_start(comments_of(text)),
{
    comments_are_well_formed(text);
    comments_are_disjoint_in_order(text);
}

/// Scanning is a function of the text alone: whatever two scans of one text return, span
/// for span, is the same.
pub proof fn scans_of_one_text_agree(text: Seq<char>, first: Seq<Span>, second: Seq<Span>)
    requires
        extents(first) == comments_of(text),
        extents(second) == comments_of(text),
    ensures
        first == second,
{
    assert(extents(first).len() == first.len());
    assert(extents(second).len() == second.len());
    assert forall|i: int| 0 <= i < first.len() implies first[i] == second[i] by {
        assert(extents(first)[i] == first[i]@);
        assert(extents(second)[i] == second[i]@);
    }
    assert(first =~= second);
}

} // verus!
