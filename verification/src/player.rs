//! The player controller: intent-driven movement, arena clamping, firing.
//!
//! Each tick the controller reads boolean intents. Forward and backward
//! translate along the current heading; turning is rate-limited about the
//! vertical axis, and when both turn intents are asserted the left one
//! wins. After translation both horizontal coordinates are independently
//! clamped to the arena half-extent, the vertical component untouched.

use vstd::prelude::*;
use crate::geom::{
    Pose,
    Vec3Fix,
    advanced_pose,
    retreated_pose,
    rotated_pose,
    clamped,
    clamp_coord,
    move_step_milli,
    turn_step_mdeg,
};
use crate::physics::{
    Blaster,
    Projectile,
    ProjectileSpawn,
    PROJECTILE_LIFETIME_MS,
    PROJECTILE_SPEED_MILLI,
};
use crate::{dt_ok, time_ok};

verus! {

/// Player linear speed, in milli-units per second.
pub const PLAYER_MPS_MILLI: i64 = 5000;

/// Player turn rate, in milli-degrees per second.
pub const PLAYER_DPS_MDEG: i64 = 180_000;

/// Player collision radius, in milli-units.
pub const PLAYER_RADIUS_MILLI: i64 = 100;

/// Arena half-extent on each horizontal axis, in milli-units.
pub const ARENA_HALF_EXTENT_MILLI: i64 = 5000;

/// The movement, turn and fire intents of one tick.
#[derive(Clone, Copy, Debug, PartialEq, Eq, Structural)]
pub struct PlayerIntents {
    pub forward: bool,
    pub backward: bool,
    pub turn_left: bool,
    pub turn_right: bool,
    pub fire: bool,
}

/// The pose with both horizontal coordinates clamped to the arena, the
/// vertical component and heading untouched.
pub open spec fn clamped_pose(p: Pose) -> Pose {
    Pose {
        position: Vec3Fix {
            x: clamped(p.position.x as int, ARENA_HALF_EXTENT_MILLI as int) as i64,
            y: clamped(p.position.y as int, ARENA_HALF_EXTENT_MILLI as int) as i64,
            z: p.position.z,
        },
        yaw_mdeg: p.yaw_mdeg,
    }
}

/// The player's pose after one tick of intents: translate forward and
/// backward along the old heading, then turn (left wins over right), then
/// clamp to the arena.
pub open spec fn player_moved(p: Pose, it: PlayerIntents, dt: int) -> Pose {
    let d = move_step_milli(PLAYER_MPS_MILLI as int, dt);
    let p1 = if it.forward {
        advanced_pose(p, d)
    } else {
        p
    };
    let p2 = if it.backward {
        retreated_pose(p1, d)
    } else {
        p1
    };
    let turn = turn_step_mdeg(PLAYER_DPS_MDEG as int, dt);
    let p3 = if it.turn_left {
        rotated_pose(p2, turn)
    } else if it.turn_right {
        rotated_pose(p2, -turn)
    } else {
        p2
    };
    clamped_pose(p3)
}

/// One tick of the player controller. With no player entity the caller
/// simply does not call; absence is not an error of this function.
pub fn player_location_system(pose: &mut Pose, intents: PlayerIntents, dt_ms: i64)
    requires
        old(pose).wf(),
        dt_ok(dt_ms as int),
    ensures
        *final(pose) == player_moved(*old(pose), intents, dt_ms as int),
        -ARENA_HALF_EXTENT_MILLI <= final(pose).position.x <= ARENA_HALF_EXTENT_MILLI,
        -ARENA_HALF_EXTENT_MILLI <= final(pose).position.y <= ARENA_HALF_EXTENT_MILLI,
        final(pose).position.z == old(pose).position.z,
        final(pose).wf(),
{
    let d = (PLAYER_MPS_MILLI * dt_ms) / 1000;
    if intents.forward {
        pose.advance(d);
    }
    if intents.backward {
        pose.retreat(d);
    }
    let turn = (PLAYER_DPS_MDEG * dt_ms) / 1000;
    if intents.turn_left {
        pose.rotate_z(turn);
    } else if intents.turn_right {
        pose.rotate_z(-turn);
    }
    pose.position.x = clamp_coord(pose.position.x, ARENA_HALF_EXTENT_MILLI);
    pose.position.y = clamp_coord(pose.position.y, ARENA_HALF_EXTENT_MILLI);
}

/// Bounds clamp: a coordinate beyond the arena half-extent lands exactly
/// on it, one within the arena is untouched, and clamping one axis never
/// reads the other axis, the vertical component or the heading.
pub proof fn lemma_bounds_clamp(p: Pose)
    ensures
        p.position.x > ARENA_HALF_EXTENT_MILLI ==> clamped_pose(p).position.x
            == ARENA_HALF_EXTENT_MILLI,
        p.position.x < -ARENA_HALF_EXTENT_MILLI ==> clamped_pose(p).position.x
            == -ARENA_HALF_EXTENT_MILLI,
        -ARENA_HALF_EXTENT_MILLI <= p.position.x <= ARENA_HALF_EXTENT_MILLI
            ==> clamped_pose(p).position.x == p.position.x,
        clamped_pose(p).position.x == clamped(p.position.x as int, ARENA_HALF_EXTENT_MILLI as int),
        clamped_pose(p).position.y == clamped(p.position.y as int, ARENA_HALF_EXTENT_MILLI as int),
        clamped_pose(p).position.z == p.position.z,
        clamped_pose(p).yaw_mdeg == p.yaw_mdeg,
{
}

/// One tick of the player's fire attempt: fires exactly when wanted and
/// off cooldown, and the new projectile starts at the player's pose, owned
/// by the player, with the configured lifetime and speed.
pub fn player_shoot_system(
    player_id: u64,
    pose: &Pose,
    blaster: &mut Blaster,
    fire_intent: bool,
    now_ms: i64,
) -> (spawn: Option<ProjectileSpawn>)
    requires
        old(blaster).wf(),
        time_ok(now_ms as int),
    ensures
        (spawn is Some) == (fire_intent && old(blaster).ready(now_ms as int)),
        match spawn {
            Some(s) => {
                &&& *final(blaster) == (Blaster {
                    cooldown_ms: old(blaster).cooldown_ms,
                    time_of_last_shot_ms: now_ms,
                })
                &&& s == (ProjectileSpawn {
                    pose: *pose,
                    projectile: Projectile {
                        owner: player_id,
                        creation_time_ms: now_ms,
                        lifetime_ms: PROJECTILE_LIFETIME_MS,
                        speed_milli: PROJECTILE_SPEED_MILLI,
                    },
                })
            },
            None => *final(blaster) == *old(blaster),
        },
        final(blaster).wf(),
{
    let fired = blaster.try_fire(now_ms, fire_intent);
    if fired {
        Some(
            ProjectileSpawn {
                pose: *pose,
                projectile: Projectile {
                    owner: player_id,
                    creation_time_ms: now_ms,
                    lifetime_ms: PROJECTILE_LIFETIME_MS,
                    speed_milli: PROJECTILE_SPEED_MILLI,
                },
            },
        )
    } else {
        None
    }
}

} // verus!
