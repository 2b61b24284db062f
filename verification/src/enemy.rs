//! Enemy behavior: patrol waypoints, player pursuit, fire gating, spawning.
//!
//! Every tick an enemy first tries to acquire the player: within the
//! vision radius the player's position is the target, re-evaluated each
//! tick. Otherwise a set waypoint is the target, unless the enemy has come
//! within the waypoint-reached radius, in which case a fresh random
//! waypoint is drawn and no movement happens that tick. With a target
//! selected the enemy turns toward it at a fixed rate — the side chosen by
//! the vertical cross-product component — while always advancing.

use vstd::prelude::*;
use vstd::arithmetic::div_mod::{lemma_mod_multiples_basic, lemma_small_mod, lemma_mod_bound};
use crate::geom::{
    Pose,
    Vec3Fix,
    advanced_pose,
    rotated_pose,
    forward_of,
    cross_z,
    dist2_xy,
    in_fire_cone,
    calc_cross_z,
    calc_dist2_xy,
    calc_in_fire_cone,
    move_step_milli,
    turn_step_mdeg,
    vec3_ok,
    vec3_geom_ok,
};
use crate::trig::{FULL_TURN_MDEG, heading_mdeg};
use crate::physics::{
    Blaster,
    Hittable,
    Projectile,
    ProjectileSpawn,
    BLASTER_COOLDOWN_MS,
    PROJECTILE_LIFETIME_MS,
    PROJECTILE_SPEED_MILLI,
};
use crate::rng::random_int_in;
use crate::{TIME_LIMIT, dt_ok, time_ok};

verus! {

/// Enemy linear speed, in milli-units per second.
pub const ENEMY_MPS_MILLI: i64 = 1000;

/// Enemy turn rate, in milli-degrees per second.
pub const ENEMY_DPS_MDEG: i64 = 180_000;

/// Distance under which a waypoint counts as reached, in milli-units.
pub const WAYPOINT_RADIUS_MILLI: i64 = 1000;

/// Distance under which an enemy sees the player, in milli-units.
pub const VISION_RADIUS_MILLI: i64 = 2000;

/// Distance under which an enemy may fire at the player, in milli-units.
pub const SHOOT_RADIUS_MILLI: i64 = 1000;

/// Enemy collision radius, in milli-units.
pub const ENEMY_RADIUS_MILLI: i64 = 100;

/// Magnitude bound of a random waypoint coordinate, in milli-units.
pub const WAYPOINT_COORD_MAX_MILLI: i64 = 4000;

/// Period of the enemy spawner, in milliseconds.
pub const SPAWN_PERIOD_MS: i64 = 2000;

/// Per-enemy patrol state: the active waypoint, if any.
#[derive(Clone, Copy, Debug, PartialEq, Eq)]
pub struct Enemy {
    pub next_waypoint: Option<Vec3Fix>,
}

impl Enemy {
    /// The waypoint, when set, is a position the systems accept.
    pub open spec fn wf(self) -> bool {
        match self.next_waypoint {
            Some(w) => vec3_ok(w),
            None => true,
        }
    }
}

/// The player is within the enemy's vision radius.
pub open spec fn sees_player(pos: Vec3Fix, player: Option<Vec3Fix>) -> bool {
    match player {
        Some(p) => dist2_xy(pos, p) < VISION_RADIUS_MILLI * VISION_RADIUS_MILLI,
        None => false,
    }
}

/// The enemy has come within the waypoint-reached radius of `wp`.
pub open spec fn waypoint_reached(pos: Vec3Fix, wp: Vec3Fix) -> bool {
    dist2_xy(pos, wp) < WAYPOINT_RADIUS_MILLI * WAYPOINT_RADIUS_MILLI
}

/// A waypoint the random draw can produce: on the whole-unit grid within
/// the patrol range, on the ground plane.
pub open spec fn waypoint_in_bounds(w: Vec3Fix) -> bool {
    &&& -WAYPOINT_COORD_MAX_MILLI <= w.x <= WAYPOINT_COORD_MAX_MILLI
    &&& w.x as int % 1000 == 0
    &&& -WAYPOINT_COORD_MAX_MILLI <= w.y <= WAYPOINT_COORD_MAX_MILLI
    &&& w.y as int % 1000 == 0
    &&& w.z == 0
}

/// The position this tick's movement steers toward: the player when seen,
/// else the set waypoint unless it is already reached (no target then; a
/// re-roll happens instead), else none.
pub open spec fn selected_target(pos: Vec3Fix, enemy: Enemy, player: Option<Vec3Fix>) -> Option<
    Vec3Fix,
> {
    if sees_player(pos, player) {
        player
    } else {
        match enemy.next_waypoint {
            Some(wp) => if waypoint_reached(pos, wp) {
                None
            } else {
                Some(wp)
            },
            None => None,
        }
    }
}

/// This tick draws a fresh waypoint: no player in sight and the set
/// waypoint is reached.
pub open spec fn rerolls_waypoint(pos: Vec3Fix, enemy: Enemy, player: Option<Vec3Fix>) -> bool {
    &&& !sees_player(pos, player)
    &&& match enemy.next_waypoint {
        Some(wp) => waypoint_reached(pos, wp),
        None => false,
    }
}

/// The vector from the pose to `target`, as a value.
pub open spec fn to_target(p: Pose, target: Vec3Fix) -> Vec3Fix {
    Vec3Fix {
        x: (target.x - p.position.x) as i64,
        y: (target.y - p.position.y) as i64,
        z: (target.z - p.position.z) as i64,
    }
}

/// The pose after one tick of steering toward `target`: turn at the fixed
/// rate toward the side the cross product names, then advance at the
/// fixed speed.
pub open spec fn moved_toward(p: Pose, target: Vec3Fix, dt: int) -> Pose {
    let step = turn_step_mdeg(ENEMY_DPS_MDEG as int, dt);
    let delta = if cross_z(forward_of(p), to_target(p, target)) > 0 {
        step
    } else {
        -step
    };
    advanced_pose(rotated_pose(p, delta), move_step_milli(ENEMY_MPS_MILLI as int, dt))
}

/// Vision priority: whenever the player is within the vision radius, the
/// selected target is the player's position, whatever waypoint is active.
pub proof fn lemma_vision_priority(pos: Vec3Fix, enemy: Enemy, p: Vec3Fix)
    requires
        sees_player(pos, Some(p)),
    ensures
        selected_target(pos, enemy, Some(p)) == Some(p),
{
}

/// Waypoint re-roll: with no player in sight and the waypoint reached,
/// this tick selects no movement target and draws a fresh waypoint.
pub proof fn lemma_waypoint_reroll(pos: Vec3Fix, enemy: Enemy, player: Option<Vec3Fix>, wp: Vec3Fix)
    requires
        !sees_player(pos, player),
        enemy.next_waypoint == Some(wp),
        waypoint_reached(pos, wp),
    ensures
        selected_target(pos, enemy, player) is None,
        rerolls_waypoint(pos, enemy, player),
{
}

/// Draws a fresh waypoint on the whole-unit grid within the patrol range.
pub fn random_coord() -> (r: Vec3Fix)
    ensures
        waypoint_in_bounds(r),
        vec3_ok(r),
{
    let ux = random_int_in(-4, 4);
    let uy = random_int_in(-4, 4);
    proof {
        lemma_mod_multiples_basic(ux as int, 1000);
        lemma_mod_multiples_basic(uy as int, 1000);
    }
    Vec3Fix { x: ux * 1000, y: uy * 1000, z: 0 }
}

/// One tick of one enemy's movement. Selects the target for this tick —
/// player in vision first, active waypoint second — and steers toward it;
/// a reached waypoint is replaced by a fresh random one with no movement
/// this tick; with nothing to steer at, nothing moves.
pub fn enemy_movement_system(
    pose: &mut Pose,
    enemy: &mut Enemy,
    player: Option<Vec3Fix>,
    dt_ms: i64,
)
    requires
        old(pose).wf(),
        old(enemy).wf(),
        dt_ok(dt_ms as int),
        match player {
            Some(p) => vec3_ok(p),
            None => true,
        },
    ensures
        match selected_target(old(pose).position, *old(enemy), player) {
            Some(t) => {
                &&& *final(enemy) == *old(enemy)
                &&& *final(pose) == moved_toward(*old(pose), t, dt_ms as int)
            },
            None => {
                &&& *final(pose) == *old(pose)
                &&& if rerolls_waypoint(old(pose).position, *old(enemy), player) {
                    match final(enemy).next_waypoint {
                        Some(w) => waypoint_in_bounds(w),
                        None => false,
                    }
                } else {
                    *final(enemy) == *old(enemy)
                }
            },
        },
        final(enemy).wf(),
        0 <= final(pose).yaw_mdeg < FULL_TURN_MDEG,
        vec3_geom_ok(final(pose).position),
{
    let mut target: Option<Vec3Fix> = None;
    if let Some(p) = player {
        let d2 = calc_dist2_xy(&pose.position, &p);
        if d2 < (VISION_RADIUS_MILLI * VISION_RADIUS_MILLI) as i128 {
            target = Some(p);
        }
    }
    if target.is_none() {
        if let Some(wp) = enemy.next_waypoint {
            let d2 = calc_dist2_xy(&pose.position, &wp);
            if d2 < (WAYPOINT_RADIUS_MILLI * WAYPOINT_RADIUS_MILLI) as i128 {
                enemy.next_waypoint = Some(random_coord());
                return;
            }
            target = Some(wp);
        }
    }
    if let Some(t) = target {
        let f = pose.forward();
        let v = Vec3Fix {
            x: t.x - pose.position.x,
            y: t.y - pose.position.y,
            z: t.z - pose.position.z,
        };
        let step = (ENEMY_DPS_MDEG * dt_ms) / 1000;
        if calc_cross_z(&f, &v) > 0 {
            pose.rotate_z(step);
        } else {
            pose.rotate_z(-step);
        }
        pose.advance((ENEMY_MPS_MILLI * dt_ms) / 1000);
    }
}

/// The player stands inside this enemy's firing solution: within the
/// shoot radius and strictly inside the fire cone around the heading.
pub open spec fn wants_shot(pose: Pose, player: Option<Vec3Fix>) -> bool {
    match player {
        Some(p) => {
            &&& dist2_xy(pose.position, p) < SHOOT_RADIUS_MILLI * SHOOT_RADIUS_MILLI
            &&& in_fire_cone(forward_of(pose), to_target(pose, p))
        },
        None => false,
    }
}

/// One tick of one enemy's fire gate: fires exactly when the player is in
/// range, inside the fire cone and the blaster is off cooldown; the new
/// projectile starts at the enemy's pose, owned by the enemy, with the
/// configured lifetime and speed.
pub fn enemy_shooting_system(
    enemy_id: u64,
    pose: &Pose,
    blaster: &mut Blaster,
    player: Option<Vec3Fix>,
    now_ms: i64,
) -> (spawn: Option<ProjectileSpawn>)
    requires
        pose.wf(),
        old(blaster).wf(),
        time_ok(now_ms as int),
        match player {
            Some(p) => vec3_ok(p),
            None => true,
        },
    ensures
        (spawn is Some) == (wants_shot(*pose, player) && old(blaster).ready(now_ms as int)),
        match spawn {
            Some(s) => {
                &&& *final(blaster) == (Blaster {
                    cooldown_ms: old(blaster).cooldown_ms,
                    time_of_last_shot_ms: now_ms,
                })
                &&& s == (ProjectileSpawn {
                    pose: *pose,
                    projectile: Projectile {
                        owner: enemy_id,
                        creation_time_ms: now_ms,
                        lifetime_ms: PROJECTILE_LIFETIME_MS,
                        speed_milli: PROJECTILE_SPEED_MILLI,
                    },
                })
            },
            None => *final(blaster) == *old(blaster),
        },
        final(blaster).wf(),
{
    let mut gated = false;
    if let Some(p) = player {
        let d2 = calc_dist2_xy(&pose.position, &p);
        if d2 < (SHOOT_RADIUS_MILLI * SHOOT_RADIUS_MILLI) as i128 {
            let f = pose.forward();
            let v = Vec3Fix {
                x: p.x - pose.position.x,
                y: p.y - pose.position.y,
                z: p.z - pose.position.z,
            };
            if calc_in_fire_cone(&f, &v) {
                gated = true;
            }
        }
    }
    let fired = blaster.try_fire(now_ms, gated);
    if fired {
        Some(
            ProjectileSpawn {
                pose: *pose,
                projectile: Projectile {
                    owner: enemy_id,
                    creation_time_ms: now_ms,
                    lifetime_ms: PROJECTILE_LIFETIME_MS,
                    speed_milli: PROJECTILE_SPEED_MILLI,
                },
            },
        )
    } else {
        None
    }
}

/// The repeating spawn clock: one writer, itself, and an explicit
/// `new`/`tick` contract.
#[derive(Clone, Copy, Debug, PartialEq, Eq, Structural)]
pub struct SpawnTimer {
    pub period_ms: i64,
    pub elapsed_ms: i64,
}

impl SpawnTimer {
    /// The period is positive and the accumulated time stays below it.
    pub open spec fn wf(self) -> bool {
        &&& 0 < self.period_ms <= TIME_LIMIT
        &&& 0 <= self.elapsed_ms < self.period_ms
    }

    /// A fresh timer with nothing accumulated.
    pub fn new(period_ms: i64) -> (t: SpawnTimer)
        requires
            0 < period_ms <= TIME_LIMIT,
        ensures
            t.period_ms == period_ms,
            t.elapsed_ms == 0,
            t.wf(),
    {
        SpawnTimer { period_ms, elapsed_ms: 0 }
    }

    /// Advances the clock by `dt_ms`; reports whether the period was
    /// crossed, and keeps the remainder, repeating-timer fashion.
    pub fn tick(&mut self, dt_ms: i64) -> (finished: bool)
        requires
            old(self).wf(),
            dt_ok(dt_ms as int),
        ensures
            final(self).period_ms == old(self).period_ms,
            finished == (old(self).elapsed_ms + dt_ms >= old(self).period_ms),
            final(self).elapsed_ms == (old(self).elapsed_ms + dt_ms) % (old(self).period_ms as int),
            final(self).wf(),
    {
        let e = self.elapsed_ms + dt_ms;
        if e >= self.period_ms {
            proof {
                lemma_mod_bound(e as int, self.period_ms as int);
            }
            self.elapsed_ms = e % self.period_ms;
            true
        } else {
            proof {
                lemma_small_mod(e as nat, self.period_ms as nat);
            }
            self.elapsed_ms = e;
            false
        }
    }
}

/// Everything a newly spawned enemy is made of; the caller owns identity
/// allocation.
#[derive(Clone, Copy, Debug, PartialEq, Eq)]
pub struct EnemySpawn {
    pub pose: Pose,
    pub enemy: Enemy,
    pub blaster: Blaster,
    pub hittable: Hittable,
}

/// Assembles a new enemy at `pose`: a waypoint at the origin, a fresh
/// blaster, the standard collision radius.
pub fn spawn_enemy(pose: Pose) -> (s: EnemySpawn)
    requires
        pose.wf(),
    ensures
        s.pose == pose,
        s.enemy.next_waypoint == Some(Vec3Fix { x: 0, y: 0, z: 0 }),
        s.blaster.cooldown_ms == BLASTER_COOLDOWN_MS,
        s.blaster.time_of_last_shot_ms == -BLASTER_COOLDOWN_MS,
        s.hittable == (Hittable { radius_milli: ENEMY_RADIUS_MILLI }),
        s.enemy.wf(),
        s.blaster.wf(),
        s.hittable.wf(),
{
    EnemySpawn {
        pose,
        enemy: Enemy { next_waypoint: Some(Vec3Fix { x: 0, y: 0, z: 0 }) },
        blaster: Blaster::new(BLASTER_COOLDOWN_MS),
        hittable: Hittable { radius_milli: ENEMY_RADIUS_MILLI },
    }
}

/// One tick of the enemy spawner: advances the repeating clock and, each
/// time it crosses its period, assembles a new enemy at a random patrol
/// position, headed toward a second random patrol point.
pub fn spawn_enemy_system(timer: &mut SpawnTimer, dt_ms: i64) -> (spawn: Option<EnemySpawn>)
    requires
        old(timer).wf(),
        dt_ok(dt_ms as int),
    ensures
        final(timer).period_ms == old(timer).period_ms,
        final(timer).elapsed_ms == (old(timer).elapsed_ms + dt_ms) % (
            old(timer).period_ms as int
        ),
        final(timer).wf(),
        (spawn is Some) == (old(timer).elapsed_ms + dt_ms >= old(timer).period_ms),
        match spawn {
            Some(s) => {
                &&& waypoint_in_bounds(s.pose.position)
                &&& s.pose.wf()
                &&& s.enemy.next_waypoint == Some(Vec3Fix { x: 0, y: 0, z: 0 })
                &&& s.blaster.cooldown_ms == BLASTER_COOLDOWN_MS
                &&& s.blaster.time_of_last_shot_ms == -BLASTER_COOLDOWN_MS
                &&& s.hittable == (Hittable { radius_milli: ENEMY_RADIUS_MILLI })
            },
            None => true,
        },
{
    let finished = timer.tick(dt_ms);
    if finished {
        let position = random_coord();
        let looking_at = random_coord();
        let yaw = heading_mdeg(looking_at.y - position.y, looking_at.x - position.x);
        Some(spawn_enemy(Pose { position, yaw_mdeg: yaw }))
    } else {
        None
    }
}

} // verus!
