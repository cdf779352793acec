//! Canvas dimensions, in the same coordinate units as entity locations.

use vstd::prelude::*;
use crate::shapes::MAX_COORD;

verus! {

/// Reference canvas size; arbitrary and adjustable at world construction.
pub const WINDOW_WIDTH: i64 = 1500;
pub const WINDOW_HEIGHT: i64 = 900;

/// World bounds: the canvas is `width` wide and `height` tall.
#[derive(Clone, Copy, Debug)]
pub struct Metrics {
    pub width: i64,
    pub height: i64,
}

impl Metrics {
    /// The canvas fits the world bound and leaves a nonempty interior
    /// inside the 100-unit spawn margin on each edge.
    pub open spec fn wf(self) -> bool {
        &&& 200 < self.width <= MAX_COORD
        &&& 200 < self.height <= MAX_COORD
    }
}

} // verus!
