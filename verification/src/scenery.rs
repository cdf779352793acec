//! Scenery: static obstacles owned by the world. A tree is a trunk
//! rectangle plus a canopy circle anchored relative to its location.

use vstd::prelude::*;
use crate::player::Player;
use crate::shapes::{
    circle_hits_circle, circle_hits_rectangle, Circle, Rectangle, Shape, MAX_COORD,
};

verus! {

/// The kind of a scenery object, with its type-specific measurements.
#[derive(Clone, Copy, Debug)]
pub enum SceneryType {
    Tree { base_width: i64, base_height: i64, top_radius: i64 },
}

impl SceneryType {
    /// Measurements are non-negative and within the world bound.
    pub open spec fn wf(self) -> bool {
        match self {
            SceneryType::Tree { base_width, base_height, top_radius } => {
                &&& 0 <= base_width <= MAX_COORD
                &&& 0 <= base_height <= MAX_COORD
                &&& 0 <= top_radius <= MAX_COORD
            },
        }
    }
}

/// A scenery object: a kind plus the location it is anchored at.
/// Immutable after creation; the world appends, never deletes.
#[derive(Clone, Copy, Debug)]
pub struct Scenery {
    pub type_: SceneryType,
    pub location: (i64, i64),
}

impl Scenery {
    pub open spec fn wf(self) -> bool {
        &&& self.type_.wf()
        &&& -MAX_COORD <= self.location.0 <= MAX_COORD
        &&& -MAX_COORD <= self.location.1 <= MAX_COORD
    }

    /// The trunk rectangle of a tree, anchored at the tree's location.
    pub open spec fn trunk(self) -> Rectangle {
        match self.type_ {
            SceneryType::Tree { base_width, base_height, .. } => Rectangle {
                x: self.location.0,
                y: self.location.1,
                width: base_width,
                height: base_height,
            },
        }
    }

    /// The canopy circle of a tree: centered horizontally over the trunk,
    /// sitting above it with a 5-unit vertical overlap.
    pub open spec fn canopy(self) -> Circle {
        match self.type_ {
            SceneryType::Tree { base_width, top_radius, .. } => Circle {
                x: (self.location.0 + base_width / 2) as i64,
                y: (self.location.1 - top_radius + 5) as i64,
                radius: top_radius,
            },
        }
    }

    /// Whether this scenery overlaps the given player, evaluated at the
    /// player's stored location: a circle player collides with a tree iff
    /// its circle hits the trunk or the canopy; a rectangle player never
    /// collides (a deliberate unimplemented gap, kept as such).
    pub open spec fn collides_spec(self, player: Player) -> bool {
        match self.type_ {
            SceneryType::Tree { .. } => match player.shape {
                Shape::Circle { radius } => {
                    let player_circle = Circle {
                        x: player.location.0,
                        y: player.location.1,
                        radius,
                    };
                    circle_hits_rectangle(player_circle, self.trunk())
                        || circle_hits_circle(player_circle, self.canopy())
                },
                Shape::Rectangle { .. } => false,
            },
        }
    }

    /// Collision dispatch on `(SceneryType, Shape)`. Pure: it reads the
    /// player's stored location, so the world tests moves by handing in a
    /// hypothetical player placed at the candidate location.
    pub fn collides(&self, player: &Player) -> (r: bool)
        requires
            self.wf(),
            player.wf(),
        ensures
            r == self.collides_spec(*player),
    {
        match self.type_ {
            SceneryType::Tree { base_width, base_height, top_radius } => match player.shape {
                Shape::Circle { radius } => {
                    let player_circle = Circle {
                        x: player.location.0,
                        y: player.location.1,
                        radius,
                    };
                    let top_circle = Circle {
                        x: self.location.0 + base_width / 2,
                        y: self.location.1 - top_radius + 5,
                        radius: top_radius,
                    };
                    let base_rect = Rectangle {
                        x: self.location.0,
                        y: self.location.1,
                        width: base_width,
                        height: base_height,
                    };
                    proof {
                        assert(top_circle == self.canopy());
                        assert(base_rect == self.trunk());
                    }
                    player_circle.collides_with_rectangle(base_rect)
                        || player_circle.collides_with_circle(top_circle)
                },
                Shape::Rectangle { .. } => false,
            },
        }
    }
}

} // verus!
