//! Texts as sequences of characters: runs of spaces, and joining with a separator.

use itertools::Itertools;
use vstd::prelude::*;

verus! {

/// The text of `count` spaces.
pub open spec fn spaces(count: nat) -> Seq<char> {
    Seq::new(count, |i: int| ' ')
}

/// The texts of a sequence of strings, one for one.
pub open spec fn texts(parts: Seq<String>) -> Seq<Seq<char>> {
    parts.map_values(|part: String| part@)
}

/// The parts written one after the other, with `sep` between each two neighbours.
pub open spec fn joined(parts: Seq<Seq<char>>, sep: Seq<char>) -> Seq<char>
    decreases parts.len(),
{
    if parts.len() == 0 {
        Seq::empty()
    } else if parts.len() == 1 {
        parts[0]
    } else {
        joined(parts.drop_last(), sep) + sep + parts.last()
    }
}

/// Calls `itertools::Itertools::join` on the strings of `parts`. That method writes the
/// first item, then for each further item the separator and the item, every item as its
/// `Display` impl prints it, which for a string is the string itself; writing to a string
/// does not fail.
///
/// Before it writes, the method multiplies the separator's length in bytes by the number
/// of items left, to reserve room. The separator is kept to two characters, eight bytes
/// at most, and a vector holds fewer strings than an eighth of the address space, so that
/// product is in range.
#[verifier::external_body]
pub(crate) fn join(parts: &Vec<String>, sep: &str) -> (out: String)
    requires
        sep@.len() <= 2,
    ensures
        out@ == joined(texts(parts@), sep@),
{
    parts.iter().join(sep)
}

/// What one more part adds to a joined text.
pub proof fn joined_push(parts: Seq<Seq<char>>, sep: Seq<char>, part: Seq<char>)
    ensures
        joined(parts.push(part), sep) == if parts.len() == 0 {
            part
        } else {
            joined(parts, sep) + sep + part
        },
{
    assert(parts.push(part).drop_last() == parts);
}

/// With nothing between the parts, one more part is written right behind the others.
pub proof fn joined_push_unseparated(parts: Seq<Seq<char>>, part: Seq<char>)
    ensures
        joined(parts.push(part), Seq::empty()) == joined(parts, Seq::empty()) + part,
{
    joined_push(parts, Seq::empty(), part);
    if parts.len() == 0 {
        assert(Seq::<char>::empty() + part =~= part);
    } else {
        assert(joined(parts, Seq::<char>::empty()) + Seq::<char>::empty() + part =~= joined(
            parts,
            Seq::empty(),
        ) + part);
    }
}

} // verus!
