//! From a rendering to the line that is written out for it.

use vstd::prelude::*;

verus! {

/// The line for `rendering`: the rendering itself, then a single line break,
/// and nothing else.
pub open spec fn line_of(rendering: Seq<char>) -> Seq<char> {
    rendering.push('\n')
}

/// Closes `rendering` with a line break.
///
/// Every rendering is accepted, the empty one and one that holds line breaks
/// of its own included.
pub fn finish_line(rendering: String) -> (line: String)
    ensures
        line@ == line_of(rendering@),
{
    proof {
        reveal_strlit("\n");
    }
    rendering.concat("\n")
}

/// A line is its rendering, unchanged, and one line break after it: one
/// character longer, and with nothing before, between or behind.
pub proof fn lemma_line_is_rendering_then_break(rendering: Seq<char>)
    ensures
        line_of(rendering).len() == rendering.len() + 1,
        line_of(rendering).drop_last() == rendering,
        line_of(rendering).last() == '\n',
{
}

/// Showing the same rendering again gives the same line: the line depends on
/// the rendering alone, and on nothing that an earlier call left behind.
pub proof fn lemma_same_rendering_same_line(first: Seq<char>, second: Seq<char>)
    requires
        first == second,
    ensures
        line_of(first) == line_of(second),
{
}

} // verus!
