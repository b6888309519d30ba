//! The static rectangular play field.

use vstd::prelude::*;
use crate::config::ARENA_CAP;

verus! {

/// The arena's four bounds. Bodies bounce off the side walls; the top and
/// bottom matter only to the player (hard clamp) and to the lifecycle rules.
#[derive(Clone, Copy, PartialEq, Eq, Structural, Debug)]
pub struct Boundaries {
    pub left_wall: i64,
    pub right_wall: i64,
    pub top: i64,
    pub bottom: i64,
}

impl Boundaries {
    pub open spec fn wf(self) -> bool {
        &&& -ARENA_CAP <= self.left_wall < self.right_wall <= ARENA_CAP
        &&& -ARENA_CAP <= self.bottom < self.top <= ARENA_CAP
    }
}

impl Default for Boundaries {
    /// The default play field: 640 units wide, 720 tall, centered on the
    /// origin.
    fn default() -> (b: Boundaries)
        ensures
            b == (Boundaries {
                left_wall: -320_000i64,
                right_wall: 320_000i64,
                top: 360_000i64,
                bottom: -360_000i64,
            }),
            b.wf(),
    {
        Boundaries { left_wall: -320_000, right_wall: 320_000, top: 360_000, bottom: -360_000 }
    }
}

} // verus!
