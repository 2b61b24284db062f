use arena_combat::enemy::{enemy_movement_system, enemy_shooting_system, Enemy};
use arena_combat::explosion::{explosion_system, ExplosionEntity};
use arena_combat::geom::{Pose, Vec3Fix};
use arena_combat::physics::{
    projectile_physics_system, Blaster, Hittable, ProjectileEntity, TargetEntity,
};
use arena_combat::player::{player_location_system, player_shoot_system, PlayerIntents};
use arena_combat::survival::{survival_time_system, SurvivalTime};

#[test]
fn one_tick_end_to_end() {
    // A player at the origin with a small hittable radius and a fresh
    // weapon; an enemy three units away — outside the vision radius — with
    // an active waypoint in the far corner. One tick with fire intent on.
    // The cooldown rule is strict, so the first legal instant is just
    // after time zero.
    let player_id: u64 = 1;
    let enemy_id: u64 = 2;
    let now: i64 = 1;
    let dt: i64 = 1;

    let mut player_pose = Pose { position: Vec3Fix { x: 0, y: 0, z: 0 }, yaw_mdeg: 0 };
    let mut player_blaster = Blaster::new(1000);
    let player_hittable = Hittable { radius_milli: 100 };

    let waypoint = Vec3Fix { x: -4000, y: -4000, z: 0 };
    let mut enemy_pose = Pose { position: Vec3Fix { x: 3000, y: 0, z: 0 }, yaw_mdeg: 180_000 };
    let mut enemy_state = Enemy { next_waypoint: Some(waypoint) };
    let mut enemy_blaster = Blaster::new(1000);

    let intents =
        PlayerIntents { forward: false, backward: false, turn_left: false, turn_right: false, fire: true };

    // Player controller, then targeting, then weapons, then flight, then
    // hit response: the tick's fixed order.
    player_location_system(&mut player_pose, intents, dt);
    enemy_movement_system(
        &mut enemy_pose,
        &mut enemy_state,
        Some(player_pose.position),
        dt,
    );

    let player_shot =
        player_shoot_system(player_id, &player_pose, &mut player_blaster, intents.fire, now);
    let enemy_shot = enemy_shooting_system(
        enemy_id,
        &enemy_pose,
        &mut enemy_blaster,
        Some(player_pose.position),
        now,
    );

    // Exactly one projectile exists, owned by the player.
    assert!(player_shot.is_some());
    assert!(enemy_shot.is_none());
    let spawn = player_shot.unwrap();
    assert_eq!(spawn.projectile.owner, player_id);

    // The enemy was on patrol: its target stayed the waypoint.
    assert_eq!(enemy_state.next_waypoint, Some(waypoint));

    // Flight: the one projectile flies on, hitting nobody; it never tests
    // its owner, and the enemy is out of reach.
    let mut projectiles = vec![ProjectileEntity {
        id: 10,
        pose: spawn.pose,
        projectile: spawn.projectile,
    }];
    let targets = vec![
        TargetEntity { id: player_id, pose: player_pose, hittable: player_hittable },
        TargetEntity {
            id: enemy_id,
            pose: enemy_pose,
            hittable: Hittable { radius_milli: 100 },
        },
    ];
    let out = projectile_physics_system(&mut projectiles, &targets, now);
    assert!(out.despawn_projectiles.is_empty());
    assert!(out.despawn_targets.is_empty());
    assert!(out.events.is_empty());

    // Hit response: no signals, nothing spawned or removed.
    let mut explosions: Vec<ExplosionEntity> = Vec::new();
    let hit_out = explosion_system(&mut explosions, &out.events, now);
    assert!(hit_out.spawns.is_empty());
    assert!(hit_out.despawn.is_empty());

    // The survival stopwatch accrues while the player lives.
    let mut stopwatch = SurvivalTime::new();
    survival_time_system(&mut stopwatch, dt, true);
    assert_eq!(stopwatch.elapsed_ms, 1);
}

#[test]
fn stopwatch_stops_with_the_player_gone() {
    let mut stopwatch = SurvivalTime::new();
    survival_time_system(&mut stopwatch, 250, true);
    survival_time_system(&mut stopwatch, 250, true);
    assert_eq!(stopwatch.elapsed_ms, 500);
    survival_time_system(&mut stopwatch, 250, false);
    assert_eq!(stopwatch.elapsed_ms, 500);
}
