//! The finish area, whose overlap with the player wins the game.
use vstd::prelude::*;
use crate::geometry::{Aabb, PIXEL};
use crate::walls::{in_level, LEVEL_LIMIT};

verus! {

#[derive(Clone, Copy, Debug, PartialEq, Eq, Structural)]
pub struct FinishArea {
    pub body: Aabb,
}

/// A finish area as the level describes it, ready to be placed.
#[derive(Clone, Copy, Debug, PartialEq, Eq, Structural)]
pub struct FinishAreaBundle {
    pub finish_area: FinishArea,
}

/// The area whose lower left corner is `(start_x, start_y)` and whose size
/// is `(size_x, size_y)`.
pub open spec fn area_from(start_x: int, start_y: int, size_x: int, size_y: int) -> Aabb {
    Aabb {
        center_x: (start_x + size_x / 2) as i64,
        center_y: (start_y + size_y / 2) as i64,
        half_x: (size_x / 2) as i64,
        half_y: (size_y / 2) as i64,
    }
}

impl FinishAreaBundle {
    /// The finish area drawn from its lower left corner
    /// `(location_start_x, location_start_y)` right and up by its size.
    pub fn new(location_start_x: i64, location_start_y: i64, size_x: i64, size_y: i64) -> (r:
        FinishAreaBundle)
        requires
            in_level(location_start_x),
            in_level(location_start_y),
            0 <= size_x <= LEVEL_LIMIT,
            0 <= size_y <= LEVEL_LIMIT,
        ensures
            r.finish_area.body.wf(),
            r.finish_area.body == area_from(
                location_start_x as int,
                location_start_y as int,
                size_x as int,
                size_y as int,
            ),
    {
        FinishAreaBundle {
            finish_area: FinishArea {
                body: Aabb::new(
                    location_start_x + size_x / 2,
                    location_start_y + size_y / 2,
                    size_x / 2,
                    size_y / 2,
                ),
            },
        }
    }
}

/// The level's finish area: 25 pixels square from (575, 580).
pub fn spawn_finish_area() -> (r: FinishAreaBundle)
    ensures
        r.finish_area.body.wf(),
        r.finish_area.body == area_from(575 * PIXEL, 580 * PIXEL, 25 * PIXEL, 25 * PIXEL),
{
    FinishAreaBundle::new(575 * PIXEL, 580 * PIXEL, 25 * PIXEL, 25 * PIXEL)
}

/// Whether the player's box reaches the finish area: the win signal.
pub fn finish_area_collision(player_bounding_box: &Aabb, finish_area: &FinishArea) -> (won: bool)
    requires
        player_bounding_box.wf(),
        finish_area.body.wf(),
    ensures
        won == player_bounding_box.overlaps(finish_area.body),
{
    player_bounding_box.intersects(&finish_area.body)
}

} // verus!
