//! Which face of a static box a moving box has run into.
use vstd::prelude::*;
use crate::geometry::{abs, Aabb};

verus! {

/// The face of the static box that the moving box's centre is nearest to.
#[derive(Clone, Copy, Debug, PartialEq, Eq, Structural)]
pub enum Collision {
    Left,
    Right,
    Top,
    Bottom,
}

impl Collision {
    /// The unit vector that pushes the moving box back out through this face.
    pub open spec fn push(self) -> (int, int) {
        match self {
            Collision::Left => (-1, 0),
            Collision::Right => (1, 0),
            Collision::Top => (0, 1),
            Collision::Bottom => (0, -1),
        }
    }

    pub fn push_vector(&self) -> (r: (i64, i64))
        ensures
            (r.0 as int, r.1 as int) == self.push(),
    {
        match self {
            Collision::Left => (-1, 0),
            Collision::Right => (1, 0),
            Collision::Top => (0, 1),
            Collision::Bottom => (0, -1),
        }
    }
}

/// The side chosen for a centre offset `(ox, oy)` from the nearest point of
/// the static box: the larger component wins, and a tie goes to the
/// vertical axis.
pub open spec fn side_for_offset(ox: int, oy: int) -> Collision {
    if abs(ox) > abs(oy) {
        if ox < 0 {
            Collision::Left
        } else {
            Collision::Right
        }
    } else if oy > 0 {
        Collision::Top
    } else {
        Collision::Bottom
    }
}

/// The offset of the moving box's centre from the nearest point of the wall.
pub open spec fn offset_from(moving: Aabb, wall: Aabb) -> (int, int) {
    let nearest = wall.nearest(moving.center_x as int, moving.center_y as int);
    (moving.center_x - nearest.0, moving.center_y - nearest.1)
}

/// None when the boxes do not overlap; otherwise the side that was hit.
pub open spec fn collision_side(moving: Aabb, wall: Aabb) -> Option<Collision> {
    if !moving.overlaps(wall) {
        None
    } else {
        let offset = offset_from(moving, wall);
        Some(side_for_offset(offset.0, offset.1))
    }
}

fn abs_i64(v: i64) -> (r: i64)
    requires
        v > i64::MIN,
    ensures
        r == abs(v as int),
{
    if v < 0 {
        -v
    } else {
        v
    }
}

/// Resolves a moving box against a static one: `None` when they do not
/// overlap, else the side of the static box that the moving box's centre is
/// nearest to.
pub fn wall_collision(moving: &Aabb, wall: &Aabb) -> (r: Option<Collision>)
    requires
        moving.wf(),
        wall.wf(),
    ensures
        r == collision_side(*moving, *wall),
        r is None <==> !moving.overlaps(*wall),
{
    if !moving.intersects(wall) {
        return None;
    }
    let closest = wall.closest_point(moving.center_x, moving.center_y);
    let offset_x = moving.center_x - closest.0;
    let offset_y = moving.center_y - closest.1;
    let side = if abs_i64(offset_x) > abs_i64(offset_y) {
        if offset_x < 0 {
            Collision::Left
        } else {
            Collision::Right
        }
    } else if offset_y > 0 {
        Collision::Top
    } else {
        Collision::Bottom
    };
    Some(side)
}

} // verus!
