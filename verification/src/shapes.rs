//! Primitive shapes (circle, axis-aligned rectangle) and their pairwise
//! collision predicates, over integer coordinates.

use vstd::prelude::*;

verus! {

/// Largest magnitude allowed for a world coordinate or a shape dimension.
/// Keeping every value within this bound lets the squared-distance collision
/// tests below be computed in `i64` with no possibility of overflow.
pub const MAX_COORD: i64 = 1_000_000;

/// A coordinate that a collision test accepts. Derived points (a tree's
/// canopy center, a clamped candidate location) stay well within four times
/// the world bound, so the predicates take this wider range.
pub open spec fn coord_ok(v: int) -> bool {
    -4 * MAX_COORD <= v <= 4 * MAX_COORD
}

/// Saturate `v` into `[min, max]`: plain min/max clamping, no reflection.
pub open spec fn clamp_spec(v: int, min: int, max: int) -> int {
    if v < min {
        min
    } else if v > max {
        max
    } else {
        v
    }
}

/// The shape carried by an entity: a rectangle or a circle, with its
/// measurements. Immutable once created on an entity.
#[derive(Clone, Copy, Debug)]
pub enum Shape {
    Rectangle { width: i64, height: i64 },
    Circle { radius: i64 },
}

impl Shape {
    /// Measurements are non-negative and within the world bound.
    pub open spec fn wf(self) -> bool {
        match self {
            Shape::Rectangle { width, height } => {
                &&& 0 <= width <= MAX_COORD
                &&& 0 <= height <= MAX_COORD
            },
            Shape::Circle { radius } => 0 <= radius <= MAX_COORD,
        }
    }
}

/// A circle placed at a center point.
#[derive(Clone, Copy, Debug)]
pub struct Circle {
    pub x: i64,
    pub y: i64,
    pub radius: i64,
}

impl Circle {
    pub open spec fn wf(self) -> bool {
        &&& coord_ok(self.x as int)
        &&& coord_ok(self.y as int)
        &&& 0 <= self.radius
        &&& coord_ok(self.radius as int)
    }
}

/// An axis-aligned rectangle anchored at its top-left corner.
#[derive(Clone, Copy, Debug)]
pub struct Rectangle {
    pub x: i64,
    pub y: i64,
    pub width: i64,
    pub height: i64,
}

impl Rectangle {
    pub open spec fn wf(self) -> bool {
        &&& coord_ok(self.x as int)
        &&& coord_ok(self.y as int)
        &&& 0 <= self.width
        &&& coord_ok(self.width as int)
        &&& 0 <= self.height
        &&& coord_ok(self.height as int)
    }
}

/// A circle overlaps a rectangle iff the distance from the circle's center
/// to the rectangle point closest to it is at most the radius. The closest
/// point is the center clamped into the rectangle on each axis, so a center
/// inside the rectangle is at distance zero. Stated over squared distances,
/// which is equivalent since the radius is non-negative.
pub open spec fn circle_hits_rectangle(c: Circle, r: Rectangle) -> bool {
    let test_x = clamp_spec(c.x as int, r.x as int, r.x + r.width);
    let test_y = clamp_spec(c.y as int, r.y as int, r.y + r.height);
    let dist_x = c.x - test_x;
    let dist_y = c.y - test_y;
    dist_x * dist_x + dist_y * dist_y <= c.radius * c.radius
}

/// Two circles overlap iff the distance between their centers is at most
/// the sum of their radii; stated over squared distances.
pub open spec fn circle_hits_circle(a: Circle, b: Circle) -> bool {
    let dist_x = a.x - b.x;
    let dist_y = a.y - b.y;
    let radius_sum = a.radius + b.radius;
    dist_x * dist_x + dist_y * dist_y <= radius_sum * radius_sum
}

impl Circle {
    pub fn collides_with_rectangle(self, rect: Rectangle) -> (r: bool)
        requires
            self.wf(),
            rect.wf(),
        ensures
            r == circle_hits_rectangle(self, rect),
    {
        let right = rect.x + rect.width;
        let bottom = rect.y + rect.height;
        let test_x = if self.x < rect.x {
            rect.x
        } else if self.x > right {
            right
        } else {
            self.x
        };
        let test_y = if self.y < rect.y {
            rect.y
        } else if self.y > bottom {
            bottom
        } else {
            self.y
        };
        let dist_x = self.x - test_x;
        let dist_y = self.y - test_y;
        proof {
            assert(0 <= dist_x * dist_x <= 144 * MAX_COORD * MAX_COORD
                && 0 <= dist_y * dist_y <= 144 * MAX_COORD * MAX_COORD) by (nonlinear_arith)
                requires
                    -12 * MAX_COORD <= dist_x <= 12 * MAX_COORD,
                    -12 * MAX_COORD <= dist_y <= 12 * MAX_COORD;
            assert(0 <= self.radius * self.radius <= 16 * MAX_COORD * MAX_COORD)
                by (nonlinear_arith)
                requires 0 <= self.radius <= 4 * MAX_COORD;
        }
        (dist_x * dist_x) + (dist_y * dist_y) <= self.radius * self.radius
    }

    pub fn collides_with_circle(self, circle: Circle) -> (r: bool)
        requires
            self.wf(),
            circle.wf(),
        ensures
            r == circle_hits_circle(self, circle),
    {
        let dist_x = self.x - circle.x;
        let dist_y = self.y - circle.y;
        let radius_sum = self.radius + circle.radius;
        proof {
            assert(0 <= dist_x * dist_x <= 64 * MAX_COORD * MAX_COORD
                && 0 <= dist_y * dist_y <= 64 * MAX_COORD * MAX_COORD
                && 0 <= radius_sum * radius_sum <= 64 * MAX_COORD * MAX_COORD)
                by (nonlinear_arith)
                requires
                    -8 * MAX_COORD <= dist_x <= 8 * MAX_COORD,
                    -8 * MAX_COORD <= dist_y <= 8 * MAX_COORD,
                    0 <= radius_sum <= 8 * MAX_COORD;
        }
        (dist_x * dist_x) + (dist_y * dist_y) <= radius_sum * radius_sum
    }
}

/// Circle-circle collision is symmetric: the test gives the same answer
/// whichever circle is asked.
pub proof fn lemma_circle_collision_symmetric(a: Circle, b: Circle)
    ensures
        circle_hits_circle(a, b) == circle_hits_circle(b, a),
{
    assert((a.x - b.x) * (a.x - b.x) == (b.x - a.x) * (b.x - a.x)) by (nonlinear_arith);
    assert((a.y - b.y) * (a.y - b.y) == (b.y - a.y) * (b.y - a.y)) by (nonlinear_arith);
}

/// A circle whose center lies strictly inside a rectangle collides with it
/// whatever its radius: the clamped closest point is the center itself, so
/// the distance is zero.
pub proof fn lemma_center_inside_rectangle_collides(c: Circle, r: Rectangle)
    requires
        r.x < c.x < r.x + r.width,
        r.y < c.y < r.y + r.height,
        c.radius >= 0,
    ensures
        circle_hits_rectangle(c, r),
{
    let tx: int = clamp_spec(c.x as int, r.x as int, r.x + r.width);
    let ty: int = clamp_spec(c.y as int, r.y as int, r.y + r.height);
    assert(tx == c.x && ty == c.y);
    assert((c.x - tx) * (c.x - tx) == 0 && (c.y - ty) * (c.y - ty) == 0) by (nonlinear_arith)
        requires
            tx == c.x,
            ty == c.y;
    assert(c.radius * c.radius >= 0) by (nonlinear_arith)
        requires c.radius >= 0;
}

} // verus!
