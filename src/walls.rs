//! Walls of the maze and the player's collisions with them.
use vstd::prelude::*;
use crate::collider::{collision_side, wall_collision, Collision};
use crate::geometry::{signed, signed_step, Aabb, COORD_LIMIT, PIXEL};
use crate::player::{travel, Player, PLAYER_SPEED};

verus! {

/// The width of a wall drawn along one axis.
pub const WALL_THICKNESS: i64 = 5 * PIXEL;

/// Level coordinates lie in `-LEVEL_LIMIT ..= LEVEL_LIMIT`, so that every
/// box built from them fits the playfield.
pub const LEVEL_LIMIT: i64 = 250_000_000_000_000;

/// A static, immovable box.
#[derive(Clone, Copy, Debug, PartialEq, Eq, Structural)]
pub struct Wall {
    pub body: Aabb,
}

/// A wall as the level describes it, ready to be placed.
#[derive(Clone, Copy, Debug, PartialEq, Eq, Structural)]
pub struct WallBundle {
    pub wall: Wall,
}

pub open spec fn in_level(v: i64) -> bool {
    -LEVEL_LIMIT <= v <= LEVEL_LIMIT
}

/// The extent of a wall along one axis: its thickness where start and end
/// coincide, else the distance between them.
pub open spec fn wall_extent(start: int, end: int) -> int {
    if start == end {
        WALL_THICKNESS as int
    } else if end > start {
        end - start
    } else {
        start - end
    }
}

/// The centre of a wall along one axis: halfway between its two ends, or,
/// where they coincide, half its thickness past them.
pub open spec fn wall_center(start: int, end: int) -> int {
    let low = if start <= end {
        start
    } else {
        end
    };
    low + wall_extent(start, end) / 2
}

/// The wall drawn from `start` to `end`: on each axis it covers the segment
/// between the two ends, or its thickness from them where they coincide.
pub open spec fn wall_from(start_x: int, start_y: int, end_x: int, end_y: int) -> Aabb {
    let size_x = wall_extent(start_x, end_x);
    let size_y = wall_extent(start_y, end_y);
    Aabb {
        center_x: wall_center(start_x, end_x) as i64,
        center_y: wall_center(start_y, end_y) as i64,
        half_x: (size_x / 2) as i64,
        half_y: (size_y / 2) as i64,
    }
}

pub open spec fn walls_wf(walls: Seq<Wall>) -> bool {
    forall|i: int| 0 <= i < walls.len() ==> (#[trigger] walls[i]).body.wf()
}

fn extent(start: i64, end: i64) -> (r: i64)
    requires
        in_level(start),
        in_level(end),
    ensures
        r == wall_extent(start as int, end as int),
        0 <= r <= 2 * LEVEL_LIMIT,
{
    if start == end {
        WALL_THICKNESS
    } else if end > start {
        end - start
    } else {
        start - end
    }
}

impl WallBundle {
    /// The wall drawn from `(location_start_x, location_start_y)` to
    /// `(location_end_x, location_end_y)`.
    pub fn new(
        location_start_x: i64,
        location_start_y: i64,
        location_end_x: i64,
        location_end_y: i64,
    ) -> (r: WallBundle)
        requires
            in_level(location_start_x),
            in_level(location_start_y),
            in_level(location_end_x),
            in_level(location_end_y),
        ensures
            r.wall.body.wf(),
            r.wall.body == wall_from(
                location_start_x as int,
                location_start_y as int,
                location_end_x as int,
                location_end_y as int,
            ),
    {
        let size_x = extent(location_start_x, location_end_x);
        let size_y = extent(location_start_y, location_end_y);
        let low_x = if location_start_x <= location_end_x {
            location_start_x
        } else {
            location_end_x
        };
        let low_y = if location_start_y <= location_end_y {
            location_start_y
        } else {
            location_end_y
        };
        WallBundle {
            wall: Wall {
                body: Aabb::new(
                    low_x + size_x / 2,
                    low_y + size_y / 2,
                    size_x / 2,
                    size_y / 2,
                ),
            },
        }
    }
}

/// A wall of the level layout, from one end to the other.
#[derive(Clone, Copy, Debug, PartialEq, Eq, Structural)]
pub struct WallSegment {
    pub start_x: i64,
    pub start_y: i64,
    pub end_x: i64,
    pub end_y: i64,
}

impl WallSegment {
    pub open spec fn in_level(self) -> bool {
        in_level(self.start_x) && in_level(self.start_y) && in_level(self.end_x) && in_level(
            self.end_y,
        )
    }

    pub open spec fn wall(self) -> Wall {
        Wall {
            body: wall_from(
                self.start_x as int,
                self.start_y as int,
                self.end_x as int,
                self.end_y as int,
            ),
        }
    }
}

/// The walls of a level layout, one for each segment, in order.
pub fn spawn_walls(layout: &Vec<WallSegment>) -> (r: Vec<Wall>)
    requires
        forall|i: int| 0 <= i < layout@.len() ==> (#[trigger] layout@[i]).in_level(),
    ensures
        walls_wf(r@),
        r@.len() == layout@.len(),
        forall|i: int| 0 <= i < layout@.len() ==> #[trigger] r@[i] == layout@[i].wall(),
{
    let mut r: Vec<Wall> = Vec::new();
    let mut i: usize = 0;
    while i < layout.len()
        invariant
            i <= layout@.len(),
            forall|j: int| 0 <= j < layout@.len() ==> (#[trigger] layout@[j]).in_level(),
            r@.len() == i,
            walls_wf(r@),
            forall|j: int| 0 <= j < i ==> #[trigger] r@[j] == layout@[j].wall(),
        decreases layout@.len() - i,
    {
        let segment = layout[i];
        let bundle = WallBundle::new(segment.start_x, segment.start_y, segment.end_x, segment.end_y);
        r.push(bundle.wall);
        i = i + 1;
    }
    r
}

/// A box moved by `step` in the direction that leads out of `side`.
pub open spec fn pushed_out(body: Aabb, side: Collision, step: int) -> Aabb {
    body.moved(signed(side.push().0, step), signed(side.push().1, step))
}

/// Where `body` ends up after each of `walls`, in order, that `probe` hits
/// has pushed it out by `step`.
pub open spec fn pushed_by_walls(body: Aabb, probe: Aabb, walls: Seq<Wall>, step: int) -> Aabb
    decreases walls.len(),
{
    if walls.len() == 0 {
        body
    } else {
        let before = pushed_by_walls(body, probe, walls.drop_last(), step);
        match collision_side(probe, walls.last().body) {
            None => before,
            Some(side) => pushed_out(before, side, step),
        }
    }
}

/// How many of `walls` the box `probe` overlaps.
pub open spec fn wall_hits(probe: Aabb, walls: Seq<Wall>) -> nat
    decreases walls.len(),
{
    if walls.len() == 0 {
        0
    } else {
        wall_hits(probe, walls.drop_last()) + if probe.overlaps(walls.last().body) {
            1nat
        } else {
            0nat
        }
    }
}

/// Whether `probe` collides with a wall.
pub open spec fn collides_with(probe: Aabb) -> spec_fn(Wall) -> bool {
    |w: Wall| collision_side(probe, w.body) is Some
}

/// The hits counted are the walls that `probe` collides with.
pub proof fn lemma_wall_hits_are_collisions(probe: Aabb, walls: Seq<Wall>)
    ensures
        wall_hits(probe, walls) == walls.filter(collides_with(probe)).len(),
    decreases walls.len(),
{
    reveal(Seq::filter);
    if walls.len() > 0 {
        lemma_wall_hits_are_collisions(probe, walls.drop_last());
    }
}

/// The player after its wall corrections in a tick: a live player is pushed
/// out of every wall its box overlaps, each time by the distance it can walk
/// in `dt`; a dead player does not move.
pub open spec fn player_after_walls(p: Player, walls: Seq<Wall>, dt: u32) -> Player {
    if !p.alive {
        p
    } else {
        Player {
            body: pushed_by_walls(p.body, p.body, walls, travel(PLAYER_SPEED as int, dt)),
            ..p
        }
    }
}

/// The moved box `body` pushed out of `side` by `step`.
pub fn push_out(body: &Aabb, side: Collision, step: i64) -> (r: Aabb)
    requires
        body.wf(),
        0 <= step <= COORD_LIMIT,
    ensures
        r.wf(),
        r == pushed_out(*body, side, step as int),
{
    let (sign_x, sign_y) = side.push_vector();
    body.translate(signed_step(sign_x, step), signed_step(sign_y, step))
}

/// Pushes a live player out of each wall it overlaps, by the distance it
/// walks in `dt`, and returns the number of walls hit: one collision event
/// for each wall overlapped in this tick. A dead player stays where it is
/// and hits nothing.
pub fn player_wall_collistions(player: &mut Player, walls: &Vec<Wall>, dt: u32) -> (events: usize)
    requires
        old(player).wf(),
        walls_wf(walls@),
    ensures
        final(player).wf(),
        *final(player) == player_after_walls(*old(player), walls@, dt),
        events == if old(player).alive {
            wall_hits(old(player).body, walls@)
        } else {
            0
        },
        old(player).alive ==> events == walls@.filter(collides_with(old(player).body)).len(),
{
    if !player.alive {
        return 0;
    }
    let probe = player.body;
    let step: i64 = PLAYER_SPEED * dt as i64;
    let mut body = probe;
    let mut events: usize = 0;
    let mut i: usize = 0;
    while i < walls.len()
        invariant
            i <= walls@.len(),
            probe.wf(),
            body.wf(),
            walls_wf(walls@),
            step == travel(PLAYER_SPEED as int, dt),
            body == pushed_by_walls(probe, probe, walls@.take(i as int), step as int),
            events == wall_hits(probe, walls@.take(i as int)),
            events <= i,
        decreases walls@.len() - i,
    {
        assert(walls@.take(i as int + 1).drop_last() =~= walls@.take(i as int));
        let collision = wall_collision(&probe, &walls[i].body);
        if let Some(side) = collision {
            body = push_out(&body, side, step);
            events = events + 1;
        }
        i = i + 1;
    }
    assert(walls@.take(walls@.len() as int) =~= walls@);
    proof {
        lemma_wall_hits_are_collisions(probe, walls@);
    }
    player.body = body;
    events
}

} // verus!
