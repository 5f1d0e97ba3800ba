//! The session: every entity of one game, and the tick that advances it.
use vstd::prelude::*;
use rand::rngs::StdRng;
use crate::coins::{
    check_for_player_collisions_with_coins, coins_left, coins_wf, level_coins, spawn_coins, Coin,
    Score,
};
use crate::enemy::{
    apply_enemy_velocity, check_for_player_collisions, enemies_wf, enemy_advanced,
    enemy_after_walls, level_enemies, player_after_enemies, spawn_enemies, touched_by_enemy,
    update_enemy_movement, Enemy,
};
use crate::finish_area::{area_from, finish_area_collision, spawn_finish_area, FinishArea};
use crate::geometry::{Aabb, PIXEL};
use crate::player::{
    move_player, player_moved, spawn_player, Input, Player, PlayerFacingDirection,
    PLAYER_HALF_SIZE, PLAYER_SPAWN_X, PLAYER_SPAWN_Y,
};
use crate::player_attack::{
    attack_allowed, attack_box, attacks_after, attacks_wf, cooldown_player_attack_timer,
    count_down, enemies_left, player_attack, player_attack_check_for_enemy_collisions, remove_player_attacks,
    PlayerAttack, ATTACK_COOLDOWN, ATTACK_DURATION,
};
use crate::walls::{player_after_walls, player_wall_collistions, wall_hits, walls_wf, Wall};

verus! {

/// Every entity of one game session.
#[derive(Debug)]
pub struct World {
    pub player: Player,
    pub enemies: Vec<Enemy>,
    pub walls: Vec<Wall>,
    pub coins: Vec<Coin>,
    pub attacks: Vec<PlayerAttack>,
    pub finish_area: FinishArea,
    pub score: Score,
    /// The win has been signalled in this session.
    pub has_won: bool,
}

/// The signals of one tick for the presentation layer.
#[derive(Clone, Copy, Debug, PartialEq, Eq, Structural)]
pub struct TickReport {
    /// Walls the player overlapped this tick, one collision event each.
    pub wall_collisions: usize,
    /// The player died this tick: the game-over signal.
    pub player_died: bool,
    /// The live player reached the finish area for the first time: the win
    /// signal, raised once per session.
    pub won: bool,
    pub coins_collected: usize,
    pub enemies_defeated: usize,
}

impl World {
    pub open spec fn wf(&self) -> bool {
        &&& self.player.wf()
        &&& enemies_wf(self.enemies@)
        &&& walls_wf(self.walls@)
        &&& coins_wf(self.coins@)
        &&& attacks_wf(self.attacks@)
        &&& self.finish_area.body.wf()
        &&& self.score.0 + self.coins@.len() <= usize::MAX
    }

    /// A new session in the maze made of `walls`: the player at its spawn,
    /// the level's enemies and coins, the finish area, no attacks, and a
    /// score of zero.
    pub fn new(walls: Vec<Wall>) -> (r: World)
        requires
            walls_wf(walls@),
        ensures
            r.wf(),
            r.walls@ == walls@,
            r.player == spawn_player_spec(),
            r.enemies@ == level_enemies(),
            r.coins@ == level_coins(),
            r.attacks@.len() == 0,
            r.finish_area.body == area_from(575 * PIXEL, 580 * PIXEL, 25 * PIXEL, 25 * PIXEL),
            r.score.0 == 0,
            !r.has_won,
    {
        World {
            player: spawn_player(),
            enemies: spawn_enemies(),
            walls,
            coins: spawn_coins(),
            attacks: Vec::new(),
            finish_area: spawn_finish_area().finish_area,
            score: Score(0),
            has_won: false,
        }
    }
}

/// The player as `spawn_player` makes it.
pub open spec fn spawn_player_spec() -> Player {
    Player {
        body: Aabb {
            center_x: PLAYER_SPAWN_X,
            center_y: PLAYER_SPAWN_Y,
            half_x: PLAYER_HALF_SIZE,
            half_y: PLAYER_HALF_SIZE,
        },
        alive: true,
        player_attack_cooldown_timer: 0,
        player_facing_direction: PlayerFacingDirection::Down,
    }
}

/// The player after its motion and wall stages.
pub open spec fn player_walked(p: Player, input: Input, dt: u32, walls: Seq<Wall>) -> Player {
    player_after_walls(player_moved(p, input, dt), walls, dt)
}

/// Whether `after` is what the enemy stages can make of `before`: each enemy
/// moves along its velocity and then meets the walls.
pub open spec fn enemies_stepped(
    before: Seq<Enemy>,
    after: Seq<Enemy>,
    walls: Seq<Wall>,
    dt: u32,
) -> bool {
    &&& after.len() == before.len()
    &&& forall|i: int|
        0 <= i < before.len() ==> enemy_after_walls(
            enemy_advanced(before[i], dt),
            #[trigger] after[i],
            walls,
        )
}

/// The attacks once `p` has had its chance to attack on `input`.
pub open spec fn attacks_with(p: Player, input: Input, attacks: Seq<PlayerAttack>) -> Seq<
    PlayerAttack,
> {
    if attack_allowed(p, input) {
        attacks.push(PlayerAttack { body: attack_box(p), active_timer: ATTACK_DURATION })
    } else {
        attacks
    }
}

/// The player once it has had its chance to attack on `input`, with the
/// cooldown then counted down by `dt`.
pub open spec fn player_armed(p: Player, input: Input, dt: u32) -> Player {
    let cooldown = if attack_allowed(p, input) {
        ATTACK_COOLDOWN
    } else {
        p.player_attack_cooldown_timer
    };
    Player { player_attack_cooldown_timer: count_down(cooldown, dt), ..p }
}

/// The stages that follow the enemies' motion, given where they went.
pub open spec fn after_enemy_stages(
    old: &World,
    new: &World,
    input: Input,
    dt: u32,
    report: TickReport,
    moved: Seq<Enemy>,
) -> bool {
    let walked = player_walked(old.player, input, dt, old.walls@);
    let met = player_after_enemies(walked, moved);
    let attacks = attacks_with(met, input, old.attacks@);
    &&& new.enemies@ == enemies_left(moved, attacks)
    &&& new.attacks@ == attacks_after(attacks, dt)
    &&& new.player == player_armed(met, input, dt)
    &&& report.enemies_defeated == moved.len() - new.enemies@.len()
    &&& report.player_died == (walked.alive && touched_by_enemy(walked.body, moved))
}

/// One tick from `old` to `new` on `input` over `dt` microseconds, with its
/// report: the player moves and is pushed out of walls; the enemies move,
/// meet the walls and may draw new headings; an enemy touching the player
/// kills it; the player may attack, and attacks remove the enemies they
/// overlap and then count down; the player picks up the coins it overlaps;
/// the win signal is raised the first time a live player overlaps the
/// finish area, and the session remembers it.
pub open spec fn tick_outcome(old: &World, new: &World, input: Input, dt: u32, report: TickReport) -> bool {
    let moving = player_moved(old.player, input, dt);
    &&& new.walls@ == old.walls@
    &&& new.finish_area == old.finish_area
    &&& exists|moved: Seq<Enemy>|
        enemies_stepped(old.enemies@, moved, old.walls@, dt) && #[trigger] after_enemy_stages(
            old,
            new,
            input,
            dt,
            report,
            moved,
        )
    &&& new.coins@ == coins_left(old.coins@, new.player.body)
    &&& report.coins_collected == old.coins@.len() - new.coins@.len()
    &&& new.score.0 == old.score.0 + report.coins_collected
    &&& report.wall_collisions == if moving.alive {
        wall_hits(moving.body, old.walls@)
    } else {
        0
    }
    &&& report.won == (!old.has_won && new.player.alive && new.player.body.overlaps(
        new.finish_area.body,
    ))
    &&& new.has_won == (old.has_won || report.won)
}

impl World {
    /// Advances the session by one tick of `dt` microseconds with the keys of
    /// `input`; enemy headings are drawn from `rng`.
    pub fn tick(&mut self, input: &Input, dt: u32, rng: &mut StdRng) -> (report: TickReport)
        requires
            old(self).wf(),
        ensures
            final(self).wf(),
            tick_outcome(old(self), final(self), *input, dt, report),
    {
        let ghost start_player = self.player;
        let ghost start_enemies = self.enemies@;
        let ghost start_attacks = self.attacks@;
        let ghost start_coins = self.coins@;
        move_player(&mut self.player, input, dt);
        let ghost moving = self.player;
        let wall_collisions = player_wall_collistions(&mut self.player, &self.walls, dt);
        let ghost walked = self.player;
        apply_enemy_velocity(&mut self.enemies, dt);
        let ghost advanced = self.enemies@;
        update_enemy_movement(&mut self.enemies, &self.walls, rng);
        let ghost moved = self.enemies@;
        let player_died = check_for_player_collisions(&mut self.player, &self.enemies);
        let ghost met = self.player;
        player_attack(&mut self.player, input, &mut self.attacks);
        let ghost attacks = self.attacks@;
        let enemies_defeated = player_attack_check_for_enemy_collisions(
            &self.attacks,
            &mut self.enemies,
        );
        remove_player_attacks(&mut self.attacks, dt);
        cooldown_player_attack_timer(&mut self.player, dt);
        let coins_collected = check_for_player_collisions_with_coins(
            &mut self.score,
            &self.player,
            &mut self.coins,
        );
        let won = !self.has_won && self.player.alive && finish_area_collision(
            &self.player.body,
            &self.finish_area,
        );
        if won {
            self.has_won = true;
        }
        let report = TickReport {
            wall_collisions,
            player_died,
            won,
            coins_collected,
            enemies_defeated,
        };
        proof {
            assert(moving == player_moved(start_player, *input, dt));
            assert(walked == player_walked(start_player, *input, dt, self.walls@));
            assert(enemies_stepped(start_enemies, moved, self.walls@, dt)) by {
                assert forall|i: int| 0 <= i < start_enemies.len() implies enemy_after_walls(
                    enemy_advanced(start_enemies[i], dt),
                    #[trigger] moved[i],
                    self.walls@,
                ) by {
                    assert(advanced[i] == enemy_advanced(start_enemies[i], dt));
                }
            }
            assert(attacks == attacks_with(met, *input, start_attacks));
            assert(after_enemy_stages(old(self), self, *input, dt, report, moved));
        }
        report
    }
}

} // verus!
