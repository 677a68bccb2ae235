//! The nesting depth at which text is written, and the indentation that goes with it.

use vstd::prelude::*;

use crate::text::{join, joined, joined_push, spaces, texts};

verus! {

/// How deep the writer is nested. A fresh context is at depth 0; the depth never exceeds
/// 255.
#[derive(Debug, Clone, PartialEq, Eq, Structural)]
pub struct Context {
    depth: u8,
}

/// The depth one level below `depth`: one more, but never more than 255.
pub open spec fn deeper_than(depth: nat) -> nat {
    if depth < 255 {
        depth + 1
    } else {
        255
    }
}

/// The indentation of a depth: four spaces for each level.
pub open spec fn indentation(depth: nat) -> Seq<char> {
    spaces(4 * depth)
}

/// Joining copies of four spaces with nothing between them.
proof fn joined_indents(parts: Seq<Seq<char>>)
    requires
        forall|i: int| 0 <= i < parts.len() ==> parts[i] == spaces(4),
    ensures
        joined(parts, Seq::empty()) == spaces(4 * parts.len()),
    decreases parts.len(),
{
    if parts.len() == 0 {
        assert(joined(parts, Seq::empty()) =~= spaces(0));
    } else {
        let before = parts.drop_last();
        joined_indents(before);
        joined_push(before, Seq::empty(), parts.last());
        assert(before.push(parts.last()) == parts);
        assert(spaces((4 * before.len()) as nat) + Seq::<char>::empty() + spaces(4) =~= spaces(
            4 * parts.len(),
        ));
    }
}

impl Context {
    /// The nesting depth.
    pub closed spec fn depth(&self) -> nat {
        self.depth as nat
    }

    /// A context at depth 0.
    #[inline]
    pub fn new() -> (cx: Self)
        ensures
            cx.depth() == 0,
    {
        Self::default()
    }

    /// A context one level deeper; at depth 255 it stays where it is.
    pub fn deeper(&self) -> (cx: Self)
        ensures
            cx.depth() == deeper_than(self.depth()),
    {
        Self { depth: self.depth.saturating_add(1) }
    }

    /// The indentation of this depth: four spaces for each level.
    pub fn indent(&self) -> (out: String)
        ensures
            out@ == indentation(self.depth()),
    {
        let mut parts: Vec<String> = Vec::new();
        let mut level: u8 = 0;
        proof {
            reveal_strlit("    ");
            reveal_strlit("");
            assert("    "@ =~= spaces(4));
            assert(""@ =~= Seq::<char>::empty());
        }
        while level < self.depth
            invariant
                level <= self.depth,
                parts.len() == level,
                "    "@ == spaces(4),
                forall|i: int| 0 <= i < parts.len() ==> parts[i]@ == spaces(4),
            decreases self.depth - level,
        {
            parts.push(String::from_str("    "));
            level = level + 1;
        }
        proof {
            joined_indents(texts(parts@));
        }
        join(&parts, "")
    }
}

impl Default for Context {
    fn default() -> (cx: Self)
        ensures
            cx.depth() == 0,
    {
        Context { depth: 0 }
    }
}

} // verus!
