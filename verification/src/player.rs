//! The player: the single controlled entity. Its location is authoritative
//! and is meant to be mutated only with a move that the world validated.

use vstd::prelude::*;
use crate::colors::Colour;
use crate::shapes::{Shape, MAX_COORD};

verus! {

/// A player has a shape, a size that scales raw movement deltas into
/// pixel movement, a location, and a color for the renderer.
#[derive(Clone, Copy, Debug)]
pub struct Player {
    pub shape: Shape,
    pub size: (i64, i64),
    pub location: (i64, i64),
    pub color: Colour,
}

impl Player {
    /// The shape is well-formed, both size components are positive, and
    /// the location lies within the world coordinate bound.
    pub open spec fn wf(self) -> bool {
        &&& self.shape.wf()
        &&& 0 < self.size.0 <= MAX_COORD
        &&& 0 < self.size.1 <= MAX_COORD
        &&& -MAX_COORD <= self.location.0 <= MAX_COORD
        &&& -MAX_COORD <= self.location.1 <= MAX_COORD
    }
}

} // verus!
