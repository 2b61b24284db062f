use arena_combat::enemy::{
    enemy_movement_system, enemy_shooting_system, random_coord, spawn_enemy_system, Enemy,
    SpawnTimer,
};
use arena_combat::geom::{Pose, Vec3Fix};
use arena_combat::physics::Blaster;

fn pose_at(x: i64, y: i64, yaw: i64) -> Pose {
    Pose { position: Vec3Fix { x, y, z: 0 }, yaw_mdeg: yaw }
}

#[test]
fn vision_acquisition_beats_active_waypoint() {
    // Player inside the 2-unit vision radius, waypoint active and far:
    // the enemy steers at the player and keeps its waypoint.
    let waypoint = Vec3Fix { x: 4000, y: 0, z: 0 };
    let mut pose = pose_at(0, 0, 90_000);
    let mut enemy = Enemy { next_waypoint: Some(waypoint) };
    let player = Some(Vec3Fix { x: 1000, y: 0, z: 0 });
    enemy_movement_system(&mut pose, &mut enemy, player, 100);
    assert_eq!(enemy.next_waypoint, Some(waypoint));
    // Facing +y with the player at +x: the player is to the right, so the
    // heading turns clockwise by 18 degrees, and the enemy advances.
    assert_eq!(pose.yaw_mdeg, 72_000);
    assert!(pose.position != (Vec3Fix { x: 0, y: 0, z: 0 }));
}

#[test]
fn patrol_steers_at_waypoint_when_no_player_is_seen() {
    // Player beyond the vision radius: the waypoint stays the target.
    let waypoint = Vec3Fix { x: 4000, y: 0, z: 0 };
    let mut pose = pose_at(0, 0, 0);
    let mut enemy = Enemy { next_waypoint: Some(waypoint) };
    let player = Some(Vec3Fix { x: 0, y: 3000, z: 0 });
    enemy_movement_system(&mut pose, &mut enemy, player, 100);
    assert_eq!(enemy.next_waypoint, Some(waypoint));
    // Waypoint dead ahead: the cross product is zero, the turn goes
    // clockwise, and the enemy advances one tenth of its speed.
    assert_eq!(pose.yaw_mdeg, 342_000);
    assert_eq!(pose.position.x, 95);
    assert_eq!(pose.position.y, -31);
}

#[test]
fn reached_waypoint_rerolls_and_skips_movement() {
    let mut pose = pose_at(0, 0, 180_000);
    let mut enemy = Enemy { next_waypoint: Some(Vec3Fix { x: 500, y: 0, z: 0 }) };
    enemy_movement_system(&mut pose, &mut enemy, None, 100);
    // No movement this tick.
    assert_eq!(pose, pose_at(0, 0, 180_000));
    // A fresh waypoint within the patrol bounds, on the whole-unit grid.
    let w = enemy.next_waypoint.unwrap();
    assert!(-4000 <= w.x && w.x <= 4000);
    assert!(-4000 <= w.y && w.y <= 4000);
    assert_eq!(w.x % 1000, 0);
    assert_eq!(w.y % 1000, 0);
    assert_eq!(w.z, 0);
}

#[test]
fn idle_enemy_does_nothing() {
    let mut pose = pose_at(100, 200, 10_000);
    let mut enemy = Enemy { next_waypoint: None };
    enemy_movement_system(&mut pose, &mut enemy, None, 100);
    assert_eq!(pose, pose_at(100, 200, 10_000));
    assert_eq!(enemy.next_waypoint, None);
}

#[test]
fn losing_sight_resumes_the_existing_waypoint() {
    let waypoint = Vec3Fix { x: -4000, y: -4000, z: 0 };
    let mut pose = pose_at(0, 0, 0);
    let mut enemy = Enemy { next_waypoint: Some(waypoint) };
    // First tick: player visible, enemy pursues.
    enemy_movement_system(&mut pose, &mut enemy, Some(Vec3Fix { x: 1500, y: 0, z: 0 }), 50);
    assert_eq!(enemy.next_waypoint, Some(waypoint));
    // Player gone: the same waypoint is the target again, not a new one.
    enemy_movement_system(&mut pose, &mut enemy, None, 50);
    assert_eq!(enemy.next_waypoint, Some(waypoint));
}

#[test]
fn enemy_fires_only_in_range_and_inside_the_cone() {
    // Player half a unit dead ahead: in range, inside the cone.
    let pose = pose_at(0, 0, 0);
    let mut blaster = Blaster::new(1000);
    let spawn =
        enemy_shooting_system(5, &pose, &mut blaster, Some(Vec3Fix { x: 500, y: 0, z: 0 }), 1);
    assert!(spawn.is_some());
    let s = spawn.unwrap();
    assert_eq!(s.projectile.owner, 5);
    assert_eq!(s.pose, pose);

    // Player behind: no shot, cooldown untouched.
    let mut blaster = Blaster::new(1000);
    let spawn =
        enemy_shooting_system(5, &pose, &mut blaster, Some(Vec3Fix { x: -500, y: 0, z: 0 }), 1);
    assert!(spawn.is_none());
    assert_eq!(blaster.time_of_last_shot_ms, -1000);

    // Player exactly on the 45-degree edge: the cone is strict, no shot.
    let mut blaster = Blaster::new(1000);
    let spawn =
        enemy_shooting_system(5, &pose, &mut blaster, Some(Vec3Fix { x: 500, y: 500, z: 0 }), 1);
    assert!(spawn.is_none());

    // Player in the cone but out of range: no shot.
    let mut blaster = Blaster::new(1000);
    let spawn =
        enemy_shooting_system(5, &pose, &mut blaster, Some(Vec3Fix { x: 1500, y: 0, z: 0 }), 1);
    assert!(spawn.is_none());
}

#[test]
fn enemy_fire_respects_cooldown() {
    let pose = pose_at(0, 0, 0);
    let player = Some(Vec3Fix { x: 500, y: 0, z: 0 });
    let mut blaster = Blaster::new(1000);
    assert!(enemy_shooting_system(5, &pose, &mut blaster, player, 100).is_some());
    assert!(enemy_shooting_system(5, &pose, &mut blaster, player, 900).is_none());
    assert!(enemy_shooting_system(5, &pose, &mut blaster, player, 1101).is_some());
}

#[test]
fn spawn_timer_repeats_and_keeps_the_remainder() {
    let mut timer = SpawnTimer::new(2000);
    assert!(spawn_enemy_system(&mut timer, 1500).is_none());
    assert_eq!(timer.elapsed_ms, 1500);
    let spawn = spawn_enemy_system(&mut timer, 600);
    assert!(spawn.is_some());
    assert_eq!(timer.elapsed_ms, 100);
    let s = spawn.unwrap();
    assert_eq!(s.enemy.next_waypoint, Some(Vec3Fix { x: 0, y: 0, z: 0 }));
    assert_eq!(s.blaster.cooldown_ms, 1000);
    assert_eq!(s.blaster.time_of_last_shot_ms, -1000);
    assert_eq!(s.hittable.radius_milli, 100);
    assert!(-4000 <= s.pose.position.x && s.pose.position.x <= 4000);
    assert!(-4000 <= s.pose.position.y && s.pose.position.y <= 4000);
    assert_eq!(s.pose.position.z, 0);
    assert!(0 <= s.pose.yaw_mdeg && s.pose.yaw_mdeg < 360_000);
}

#[test]
fn random_waypoints_stay_on_the_patrol_grid() {
    let mut i: i32 = 0;
    while i < 50 {
        let w = random_coord();
        assert!(-4000 <= w.x && w.x <= 4000);
        assert!(-4000 <= w.y && w.y <= 4000);
        assert_eq!(w.x % 1000, 0);
        assert_eq!(w.y % 1000, 0);
        assert_eq!(w.z, 0);
        i += 1;
    }
}

#[test]
fn vision_and_waypoint_radii_are_strict() {
    // Player exactly on the vision radius: not acquired, patrol goes on.
    let waypoint = Vec3Fix { x: 4000, y: 0, z: 0 };
    let mut pose = pose_at(0, 0, 0);
    let mut enemy = Enemy { next_waypoint: Some(waypoint) };
    enemy_movement_system(&mut pose, &mut enemy, Some(Vec3Fix { x: 2000, y: 0, z: 0 }), 100);
    assert_eq!(enemy.next_waypoint, Some(waypoint));
    assert_eq!(pose.yaw_mdeg, 342_000);

    // Waypoint exactly on the reached radius: still the target, no re-roll.
    let waypoint = Vec3Fix { x: 1000, y: 0, z: 0 };
    let mut pose = pose_at(0, 0, 0);
    let mut enemy = Enemy { next_waypoint: Some(waypoint) };
    enemy_movement_system(&mut pose, &mut enemy, None, 100);
    assert_eq!(enemy.next_waypoint, Some(waypoint));
    assert_eq!(pose.position.x, 95);
}
