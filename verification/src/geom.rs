//! Plane points and vectors in milli-unit fixed point.

use vstd::prelude::*;

verus! {

/// A point or vector of the plane, each coordinate in milli-units.
#[derive(Clone, Copy, Debug, PartialEq, Eq, Structural)]
pub struct Point {
    pub x: i64,
    pub y: i64,
}

/// True when both coordinates lie within `limit` in magnitude.
pub open spec fn in_box(p: Point, limit: int) -> bool {
    -limit <= p.x <= limit && -limit <= p.y <= limit
}

impl Point {
    /// The origin.
    pub fn zero() -> (r: Point)
        ensures
            r == (Point { x: 0, y: 0 }),
    {
        Point { x: 0, y: 0 }
    }

    /// Builds a point from whole world units.
    pub fn from_units(x: i64, y: i64) -> (r: Point)
        requires
            -1_000_000 <= x <= 1_000_000,
            -1_000_000 <= y <= 1_000_000,
        ensures
            r.x == x * crate::num::MILLI,
            r.y == y * crate::num::MILLI,
    {
        Point { x: x * crate::num::MILLI, y: y * crate::num::MILLI }
    }

    /// Componentwise sum.
    pub fn add_p(self, other: Point) -> (r: Point)
        requires
            self.x + other.x <= i64::MAX,
            self.x + other.x >= i64::MIN,
            self.y + other.y <= i64::MAX,
            self.y + other.y >= i64::MIN,
        ensures
            r == (Point { x: (self.x + other.x) as i64, y: (self.y + other.y) as i64 }),
    {
        Point { x: self.x + other.x, y: self.y + other.y }
    }

    /// Componentwise difference.
    pub fn sub_p(self, other: Point) -> (r: Point)
        requires
            self.x - other.x <= i64::MAX,
            self.x - other.x >= i64::MIN,
            self.y - other.y <= i64::MAX,
            self.y - other.y >= i64::MIN,
        ensures
            r == (Point { x: (self.x - other.x) as i64, y: (self.y - other.y) as i64 }),
    {
        Point { x: self.x - other.x, y: self.y - other.y }
    }

    /// The point mirrored through `center`: the diametrically opposite point.
    pub fn opposite_through(self, center: Point) -> (r: Point)
        requires
            in_box(self, crate::num::COORD_LIMIT as int),
            in_box(center, crate::num::COORD_LIMIT as int),
        ensures
            r.x == 2 * center.x - self.x,
            r.y == 2 * center.y - self.y,
    {
        Point { x: 2 * center.x - self.x, y: 2 * center.y - self.y }
    }

    /// The perpendicular vector, a quarter turn counterclockwise.
    pub fn perp(self) -> (r: Point)
        requires
            self.y > i64::MIN,
        ensures
            r == (Point { x: (-self.y) as i64, y: self.x }),
    {
        Point { x: -self.y, y: self.x }
    }

    /// The two-dimensional cross product `self.x * other.y - self.y * other.x`.
    ///
    /// Its sign says on which side of `self` the vector `other` lies:
    /// positive when `other` is to the left (counterclockwise).
    pub fn cross(self, other: Point) -> (r: i64)
        requires
            in_box(self, 2 * crate::num::COORD_LIMIT as int),
            in_box(other, 2 * crate::num::COORD_LIMIT as int),
        ensures
            r == self.x * other.y - self.y * other.x,
    {
        proof {
            assert(-(4_000_000_000_000_000_000int) <= self.x * other.y
                <= 4_000_000_000_000_000_000int) by (nonlinear_arith)
                requires
                    -2_000_000_000 <= self.x <= 2_000_000_000,
                    -2_000_000_000 <= other.y <= 2_000_000_000,
            ;
            assert(-(4_000_000_000_000_000_000int) <= self.y * other.x
                <= 4_000_000_000_000_000_000int) by (nonlinear_arith)
                requires
                    -2_000_000_000 <= self.y <= 2_000_000_000,
                    -2_000_000_000 <= other.x <= 2_000_000_000,
            ;
        }
        self.x * other.y - self.y * other.x
    }

    /// The squared Euclidean length, in squared milli-units.
    pub fn length_sq(self) -> (r: u64)
        requires
            in_box(self, crate::num::COORD_LIMIT as int),
        ensures
            r == self.x * self.x + self.y * self.y,
            r < 0x4000_0000_0000_0000,
    {
        proof {
            assert(0 <= self.x * self.x <= 1_000_000_000_000_000_000int) by (nonlinear_arith)
                requires
                    -1_000_000_000 <= self.x <= 1_000_000_000,
            ;
            assert(0 <= self.y * self.y <= 1_000_000_000_000_000_000int) by (nonlinear_arith)
                requires
                    -1_000_000_000 <= self.y <= 1_000_000_000,
            ;
        }
        (self.x * self.x) as u64 + (self.y * self.y) as u64
    }

    /// The Euclidean length rounded down to whole milli-units.
    pub fn length(self) -> (r: u64)
        requires
            in_box(self, crate::num::COORD_LIMIT as int),
        ensures
            r * r <= self.x * self.x + self.y * self.y < (r + 1) * (r + 1),
            r < 0x8000_0000,
    {
        crate::num::isqrt(self.length_sq())
    }
}

} // verus!
