//! Geometry parameters of the closed-loop track.
//!
//! The track is a stadium loop: two straightaways joined by two half-circle
//! bends.  The controller only consumes the parameters; the geometry itself
//! (checkpoints, walls, collision shapes) belongs to the host's track
//! service.  For the racing-line query the loop is divided into four angular
//! zones around the center: a straightaway above and below, a bend to the
//! left and to the right, with half-open boundaries so that every position
//! angle belongs to exactly one zone.

use vstd::prelude::*;
use crate::geom::Point;
use crate::geom::in_box;

verus! {

/// Track geometry, all lengths in milli-units.
#[derive(Clone, Copy, Debug, PartialEq, Eq, Structural)]
pub struct Track {
    /// The point the angular zones are measured around.
    pub center: Point,
    /// Half the length of the loop along its long axis.
    pub half_length: i64,
    /// Outer radius of the two bends.
    pub radius: i64,
    /// Width of the drivable lane.
    pub thickness: i64,
}

impl Track {
    /// A well-formed track: positive lane thickness, bends no wider than the
    /// half length, and everything within the coordinate bounds.
    pub open spec fn wf(self) -> bool {
        0 < self.thickness <= self.radius <= self.half_length <= crate::num::COORD_LIMIT
            && in_box(self.center, crate::num::COORD_LIMIT as int)
    }

    /// A track from its center and lengths.
    pub fn new(center: Point, half_length: i64, radius: i64, thickness: i64) -> (r: Track)
        requires
            0 < thickness <= radius <= half_length <= crate::num::COORD_LIMIT,
            in_box(center, crate::num::COORD_LIMIT as int),
        ensures
            r.wf(),
            r == (Track { center, half_length, radius, thickness }),
    {
        Track { center, half_length, radius, thickness }
    }

    /// Radius of the grass island inside the lane.
    pub fn interior_radius(&self) -> (r: i64)
        requires
            self.wf(),
        ensures
            r == self.radius - self.thickness,
    {
        self.radius - self.thickness
    }
}

/// The reference track of the host game, centered on the origin.
impl Default for Track {
    fn default() -> (r: Track)
        ensures
            r.wf(),
            r == (Track {
                center: Point { x: 0, y: 0 },
                half_length: 1_600_000i64,
                radius: 800_000i64,
                thickness: 600_000i64,
            }),
    {
        Track {
            center: Point { x: 0, y: 0 },
            half_length: 1_600_000,
            radius: 800_000,
            thickness: 600_000,
        }
    }
}

} // verus!
