//! Axis-aligned boxes on an integer plane.
//!
//! Coordinates are in micropixels and time in microseconds, so that a speed
//! given in pixels per second is also a number of micropixels per
//! microsecond.
use vstd::prelude::*;

verus! {

/// Micropixels in one pixel.
pub const PIXEL: i64 = 1_000_000;

/// No centre coordinate leaves `-COORD_LIMIT ..= COORD_LIMIT` (a billion pixels).
pub const COORD_LIMIT: i64 = 1_000_000_000_000_000;

/// No half-extent exceeds this.
pub const SIZE_LIMIT: i64 = 1_000_000_000_000_000;

/// `v` held to `lo ..= hi`.
pub open spec fn clamp(v: int, lo: int, hi: int) -> int {
    if v < lo {
        lo
    } else if v > hi {
        hi
    } else {
        v
    }
}

pub open spec fn abs(v: int) -> int {
    if v < 0 {
        -v
    } else {
        v
    }
}

/// A coordinate moved by `d` and held inside the playfield.
pub open spec fn shifted(v: int, d: int) -> int {
    clamp(v + d, -COORD_LIMIT, COORD_LIMIT as int)
}

/// Whether the closed intervals `[a_lo, a_hi]` and `[b_lo, b_hi]` share a point.
pub open spec fn spans_overlap(a_lo: int, a_hi: int, b_lo: int, b_hi: int) -> bool {
    a_lo <= b_hi && a_hi >= b_lo
}

/// A box given by its centre and its half-extents; an extent of zero makes
/// it a segment or a point, which still takes part in overlap queries.
#[derive(Clone, Copy, Debug, PartialEq, Eq, Structural)]
pub struct Aabb {
    pub center_x: i64,
    pub center_y: i64,
    pub half_x: i64,
    pub half_y: i64,
}

impl Aabb {
    pub open spec fn wf(self) -> bool {
        &&& -COORD_LIMIT <= self.center_x <= COORD_LIMIT
        &&& -COORD_LIMIT <= self.center_y <= COORD_LIMIT
        &&& 0 <= self.half_x <= SIZE_LIMIT
        &&& 0 <= self.half_y <= SIZE_LIMIT
    }

    pub open spec fn min_x(self) -> int {
        self.center_x - self.half_x
    }

    pub open spec fn max_x(self) -> int {
        self.center_x + self.half_x
    }

    pub open spec fn min_y(self) -> int {
        self.center_y - self.half_y
    }

    pub open spec fn max_y(self) -> int {
        self.center_y + self.half_y
    }

    /// The two boxes share at least one point; touching edges count.
    pub open spec fn overlaps(self, other: Aabb) -> bool {
        &&& spans_overlap(self.min_x(), self.max_x(), other.min_x(), other.max_x())
        &&& spans_overlap(self.min_y(), self.max_y(), other.min_y(), other.max_y())
    }

    /// The point of the box nearest to `(x, y)`.
    pub open spec fn nearest(self, x: int, y: int) -> (int, int) {
        (clamp(x, self.min_x(), self.max_x()), clamp(y, self.min_y(), self.max_y()))
    }

    /// The same box with its centre moved by `(dx, dy)`, held inside the playfield.
    pub open spec fn moved(self, dx: int, dy: int) -> Aabb {
        Aabb {
            center_x: shifted(self.center_x as int, dx) as i64,
            center_y: shifted(self.center_y as int, dy) as i64,
            ..self
        }
    }

    pub fn new(center_x: i64, center_y: i64, half_x: i64, half_y: i64) -> (r: Aabb)
        requires
            -COORD_LIMIT <= center_x <= COORD_LIMIT,
            -COORD_LIMIT <= center_y <= COORD_LIMIT,
            0 <= half_x <= SIZE_LIMIT,
            0 <= half_y <= SIZE_LIMIT,
        ensures
            r.wf(),
            r == (Aabb { center_x, center_y, half_x, half_y }),
    {
        Aabb { center_x, center_y, half_x, half_y }
    }

    /// Whether the two boxes overlap on both axes.
    pub fn intersects(&self, other: &Aabb) -> (r: bool)
        requires
            self.wf(),
            other.wf(),
        ensures
            r == self.overlaps(*other),
    {
        self.center_x - self.half_x <= other.center_x + other.half_x
            && self.center_x + self.half_x >= other.center_x - other.half_x
            && self.center_y - self.half_y <= other.center_y + other.half_y
            && self.center_y + self.half_y >= other.center_y - other.half_y
    }

    /// The point of the box nearest to `(x, y)`: each coordinate clamped to
    /// the box's extent on its axis.
    pub fn closest_point(&self, x: i64, y: i64) -> (r: (i64, i64))
        requires
            self.wf(),
        ensures
            (r.0 as int, r.1 as int) == self.nearest(x as int, y as int),
    {
        (
            clamp_i64(x, self.center_x - self.half_x, self.center_x + self.half_x),
            clamp_i64(y, self.center_y - self.half_y, self.center_y + self.half_y),
        )
    }

    /// The box with its centre moved by `(dx, dy)`; a coordinate that would
    /// leave the playfield stops at its edge.
    pub fn translate(&self, dx: i64, dy: i64) -> (r: Aabb)
        requires
            self.wf(),
            -4 * COORD_LIMIT <= dx <= 4 * COORD_LIMIT,
            -4 * COORD_LIMIT <= dy <= 4 * COORD_LIMIT,
        ensures
            r.wf(),
            r == self.moved(dx as int, dy as int),
    {
        Aabb {
            center_x: clamp_i64(self.center_x + dx, -COORD_LIMIT, COORD_LIMIT),
            center_y: clamp_i64(self.center_y + dy, -COORD_LIMIT, COORD_LIMIT),
            half_x: self.half_x,
            half_y: self.half_y,
        }
    }
}

/// `step` taken in the direction of `sign`: forward, backward or not at all.
pub open spec fn signed(sign: int, step: int) -> int {
    if sign < 0 {
        -step
    } else if sign > 0 {
        step
    } else {
        0
    }
}

/// `step` taken in the direction of `sign`.
pub fn signed_step(sign: i64, step: i64) -> (r: i64)
    requires
        0 <= step <= COORD_LIMIT,
    ensures
        r == signed(sign as int, step as int),
        -COORD_LIMIT <= r <= COORD_LIMIT,
{
    if sign < 0 {
        -step
    } else if sign > 0 {
        step
    } else {
        0
    }
}

pub fn clamp_i64(v: i64, lo: i64, hi: i64) -> (r: i64)
    requires
        lo <= hi,
    ensures
        r == clamp(v as int, lo as int, hi as int),
{
    if v < lo {
        lo
    } else if v > hi {
        hi
    } else {
        v
    }
}

} // verus!
