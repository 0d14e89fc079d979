//! Centering of one unit of content inside a physical cell dimension.

use vstd::prelude::*;

verus! {

/// Filler before the content: half of what is left over, the odd unit going in
/// front when the dimension is even.
pub open spec fn before(width: int, content: int) -> int {
    (width - content) / 2 + 1 - width % 2
}

/// Filler after the content: half of what is left over, rounded down.
pub open spec fn after(width: int, content: int) -> int {
    (width - content) / 2
}

/// A run of `n` filler characters.
pub open spec fn filler(n: int) -> Seq<char> {
    Seq::new(n as nat, |i: int| ' ')
}

/// Filler counts around the content of a cell.
#[derive(Clone, Copy, Debug, PartialEq, Eq, Structural)]
pub struct Pad {
    pub before: usize,
    pub after: usize,
}

impl Pad {
    /// The padding that centers a single unit of content in `width` units.
    pub fn new(width: usize) -> (pad: Pad)
        requires
            width >= 1,
        ensures
            pad.before == before(width as int, 1),
            pad.after == after(width as int, 1),
            pad.before + 1 + pad.after == width,
    {
        let half: usize = (width - 1) / 2;
        Pad { before: half + 1 - width % 2, after: half }
    }
}

/// The two fillers and the content fill the dimension exactly, and an odd
/// dimension is padded evenly.
pub proof fn lemma_pad_centers(width: int)
    requires
        width >= 1,
    ensures
        before(width, 1) + after(width, 1) == width - 1,
        width % 2 == 1 ==> before(width, 1) == after(width, 1),
        0 <= after(width, 1) <= before(width, 1) <= after(width, 1) + 1,
{
}

} // verus!
