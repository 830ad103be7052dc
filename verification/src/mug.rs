//! The mug the leaf has to land in, and what happens when it does.

use vstd::prelude::*;
use crate::leaf::PlayerLeaf;

verus! {

/// Leaves it takes to brew a full mug of tea.
pub const FULL_BREW: u32 = 4;

/// The mug at the end of the course.
#[derive(Debug, Clone, Copy, PartialEq, Eq, Structural)]
pub struct Mug {
    /// Leaves that have landed in the mug so far.
    pub leafs_in_mug: u32,
    /// Leaves that make a full brew.
    pub full_brew: u32,
}

impl Mug {
    /// An empty mug.
    pub fn new() -> (mug: Mug)
        ensures
            mug.leafs_in_mug == 0,
            mug.full_brew == FULL_BREW,
    {
        Mug { leafs_in_mug: 0, full_brew: FULL_BREW }
    }
}

/// Whether the physics engine reports that the leaf overlaps the mug. Both
/// `None` and `Some(false)` mean that it does not.
pub open spec fn leaf_landed(intersection: Option<bool>) -> bool {
    intersection == Some(true)
}

/// Whether a landing can be scored: the mug's picture has at least one
/// frame, and neither the count of leaves nor the frame index is at the
/// end of its range.
pub open spec fn can_score(mug: Mug, sprite_index: usize, frames: usize) -> bool {
    frames > 0 && mug.leafs_in_mug < u32::MAX && sprite_index < usize::MAX
}

/// Scores the leaf when it has landed in the mug.
///
/// `intersection` is what the physics engine says of the leaf and the mug,
/// `sprite_index` the frame of the mug's picture that is shown, and `frames`
/// the number of frames that picture has. On a landing the mug counts one
/// more leaf, its picture moves on one frame, starting over after the last,
/// and the leaf that replaces the landed one is returned. Without a landing
/// nothing changes and nothing is returned.
pub fn tea_in_mug_system(
    mug: &mut Mug,
    sprite_index: &mut usize,
    frames: usize,
    intersection: Option<bool>,
) -> (respawn: Option<PlayerLeaf>)
    requires
        leaf_landed(intersection) ==> can_score(*old(mug), *old(sprite_index), frames),
    ensures
        leaf_landed(intersection) ==> final(mug).leafs_in_mug == old(mug).leafs_in_mug + 1,
        leaf_landed(intersection) ==> final(mug).full_brew == old(mug).full_brew,
        leaf_landed(intersection) ==> *final(sprite_index) == (*old(sprite_index) + 1) % (frames as int),
        leaf_landed(intersection) ==> respawn == Some(PlayerLeaf::fresh()),
        !leaf_landed(intersection) ==> *final(mug) == *old(mug),
        !leaf_landed(intersection) ==> *final(sprite_index) == *old(sprite_index),
        !leaf_landed(intersection) ==> respawn.is_none(),
{
    match intersection {
        Some(true) => {
            mug.leafs_in_mug = mug.leafs_in_mug + 1;
            *sprite_index = (*sprite_index + 1) % frames;
            Some(PlayerLeaf::new())
        },
        _ => None,
    }
}

} // verus!
