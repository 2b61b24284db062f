use arena_combat::geom::{Pose, Vec3Fix};
use arena_combat::physics::{
    projectile_physics_system, Hittable, Projectile, ProjectileEntity, TargetEntity,
};

fn projectile_at(id: u64, x: i64, y: i64, owner: u64, created: i64) -> ProjectileEntity {
    ProjectileEntity {
        id,
        pose: Pose { position: Vec3Fix { x, y, z: 0 }, yaw_mdeg: 0 },
        projectile: Projectile {
            owner,
            creation_time_ms: created,
            lifetime_ms: 1000,
            speed_milli: 100,
        },
    }
}

fn target_at(id: u64, x: i64, y: i64, radius: i64) -> TargetEntity {
    TargetEntity {
        id,
        pose: Pose { position: Vec3Fix { x, y, z: 0 }, yaw_mdeg: 0 },
        hittable: Hittable { radius_milli: radius },
    }
}

#[test]
fn projectile_advances_flat_per_tick() {
    let mut projectiles = vec![projectile_at(1, 0, 0, 9, 0)];
    let targets: Vec<TargetEntity> = Vec::new();
    let out = projectile_physics_system(&mut projectiles, &targets, 500);
    assert_eq!(projectiles[0].pose.position.x, 100);
    assert_eq!(projectiles[0].pose.position.y, 0);
    assert!(out.despawn_projectiles.is_empty());
    assert!(out.events.is_empty());
    // A second pass advances the same flat amount: no delta-time enters.
    let out = projectile_physics_system(&mut projectiles, &targets, 900);
    assert_eq!(projectiles[0].pose.position.x, 200);
    assert!(out.despawn_projectiles.is_empty());
}

#[test]
fn projectile_expires_by_age_regardless_of_targets() {
    // A target sits right on top of the projectile, but its age is up.
    let mut projectiles = vec![projectile_at(1, 0, 0, 9, 0)];
    let targets = vec![target_at(2, 0, 0, 5000)];
    let out = projectile_physics_system(&mut projectiles, &targets, 1001);
    assert_eq!(out.despawn_projectiles, vec![1]);
    assert!(out.despawn_targets.is_empty());
    assert!(out.events.is_empty());
    // An expired projectile does not advance.
    assert_eq!(projectiles[0].pose.position.x, 0);
}

#[test]
fn projectile_survives_until_age_strictly_exceeds_lifetime() {
    let mut projectiles = vec![projectile_at(1, 0, 0, 9, 0)];
    let targets: Vec<TargetEntity> = Vec::new();
    let out = projectile_physics_system(&mut projectiles, &targets, 1000);
    assert!(out.despawn_projectiles.is_empty());
    assert_eq!(projectiles[0].pose.position.x, 100);
}

#[test]
fn projectile_never_hits_its_own_owner() {
    // The owner is hittable with a huge radius at the projectile's position.
    let mut projectiles = vec![projectile_at(1, 0, 0, 9, 0)];
    let targets = vec![target_at(9, 0, 0, 5000)];
    let out = projectile_physics_system(&mut projectiles, &targets, 100);
    assert!(out.despawn_projectiles.is_empty());
    assert!(out.despawn_targets.is_empty());
    assert!(out.events.is_empty());
}

#[test]
fn projectile_hits_first_qualifying_target_only() {
    let mut projectiles = vec![projectile_at(1, 0, 0, 9, 0)];
    let targets = vec![
        target_at(2, 4000, 0, 100),  // far: not in range
        target_at(3, 150, 0, 200),   // first in scan order within range
        target_at(4, 100, 0, 300),   // also in range, scanned later
    ];
    let out = projectile_physics_system(&mut projectiles, &targets, 100);
    assert_eq!(out.despawn_projectiles, vec![1]);
    assert_eq!(out.despawn_targets, vec![3]);
    assert_eq!(out.events.len(), 1);
    assert_eq!(out.events[0].location, Vec3Fix { x: 150, y: 0, z: 0 });
}

#[test]
fn destruction_is_deferred_within_one_pass() {
    // Two projectiles hit the same target in one pass: both register,
    // because despawns take effect only after the pass.
    let mut projectiles = vec![projectile_at(1, 0, 0, 9, 0), projectile_at(2, 0, 50, 9, 0)];
    let targets = vec![target_at(3, 100, 0, 400)];
    let out = projectile_physics_system(&mut projectiles, &targets, 100);
    assert_eq!(out.despawn_projectiles, vec![1, 2]);
    assert_eq!(out.despawn_targets, vec![3, 3]);
    assert_eq!(out.events.len(), 2);
}

#[test]
fn collision_uses_horizontal_distance_and_target_radius() {
    // After advancing 100 along +x the projectile sits at x=200; the
    // target at x=250 with radius 51 is within range, with radius 50 not.
    let mut projectiles = vec![projectile_at(1, 100, 0, 9, 0)];
    let targets = vec![target_at(2, 250, 0, 50)];
    let out = projectile_physics_system(&mut projectiles, &targets, 100);
    assert!(out.events.is_empty());

    let mut projectiles = vec![projectile_at(1, 100, 0, 9, 0)];
    let targets = vec![target_at(2, 250, 0, 51)];
    let out = projectile_physics_system(&mut projectiles, &targets, 100);
    assert_eq!(out.despawn_targets, vec![2]);
}
