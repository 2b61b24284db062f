use arena_combat::geom::{Pose, Vec3Fix};
use arena_combat::physics::Blaster;
use arena_combat::player::player_shoot_system;

fn origin_pose() -> Pose {
    Pose { position: Vec3Fix { x: 0, y: 0, z: 0 }, yaw_mdeg: 0 }
}

#[test]
fn fresh_blaster_fires_at_any_positive_time() {
    let pose = origin_pose();
    let mut blaster = Blaster::new(1000);
    assert_eq!(blaster.time_of_last_shot_ms, -1000);
    let spawn = player_shoot_system(1, &pose, &mut blaster, true, 1);
    assert!(spawn.is_some());
    assert_eq!(blaster.time_of_last_shot_ms, 1);
}

#[test]
fn cooldown_blocks_second_shot_within_cooldown() {
    let pose = origin_pose();
    let mut blaster = Blaster::new(1000);
    let first = player_shoot_system(1, &pose, &mut blaster, true, 100);
    assert!(first.is_some());
    // Less than a full cooldown later: at most one projectile in all.
    let second = player_shoot_system(1, &pose, &mut blaster, true, 1099);
    assert!(second.is_none());
    assert_eq!(blaster.time_of_last_shot_ms, 100);
    // A shot exactly one cooldown later is still refused: the rule is strict.
    let third = player_shoot_system(1, &pose, &mut blaster, true, 1100);
    assert!(third.is_none());
    // Strictly past the cooldown the shot goes through.
    let fourth = player_shoot_system(1, &pose, &mut blaster, true, 1101);
    assert!(fourth.is_some());
}

#[test]
fn no_fire_intent_means_no_shot() {
    let pose = origin_pose();
    let mut blaster = Blaster::new(1000);
    let spawn = player_shoot_system(1, &pose, &mut blaster, false, 500);
    assert!(spawn.is_none());
    assert_eq!(blaster.time_of_last_shot_ms, -1000);
}

#[test]
fn spawned_projectile_carries_owner_pose_and_defaults() {
    let pose = Pose { position: Vec3Fix { x: 1200, y: -300, z: 0 }, yaw_mdeg: 45_000 };
    let mut blaster = Blaster::new(1000);
    let spawn = player_shoot_system(7, &pose, &mut blaster, true, 250).unwrap();
    assert_eq!(spawn.pose, pose);
    assert_eq!(spawn.projectile.owner, 7);
    assert_eq!(spawn.projectile.creation_time_ms, 250);
    assert_eq!(spawn.projectile.lifetime_ms, 1000);
    assert_eq!(spawn.projectile.speed_milli, 100);
}
