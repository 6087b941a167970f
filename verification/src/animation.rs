//! Stepping through the frames of a sprite strip.

use vstd::prelude::*;

verus! {

/// The frame shown after `index` in a strip that runs from `first` to
/// `last`: the next one, or `first` again after `last`.
pub open spec fn frame_after(index: int, first: int, last: int) -> int {
    if index == last {
        first
    } else {
        index + 1
    }
}

/// The frame to show after `index`.
pub fn next_sprite_index(index: usize, first: usize, last: usize) -> (next: usize)
    requires
        index != last ==> index < usize::MAX,
    ensures
        next == frame_after(index as int, first as int, last as int),
{
    if index == last {
        first
    } else {
        index + 1
    }
}

/// A strip that is entered between its ends never leaves them.
pub proof fn lemma_frame_stays_in_strip(index: int, first: int, last: int)
    requires
        first <= index <= last,
    ensures
        first <= frame_after(index, first, last) <= last,
{
}

} // verus!
