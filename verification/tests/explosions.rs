use arena_combat::explosion::{
    explosion_system, Explosion, ExplosionEntity, ExplosionEvent,
};
use arena_combat::geom::Vec3Fix;

fn entity(id: u64, created: i64, lifetime: i64) -> ExplosionEntity {
    ExplosionEntity {
        id,
        location: Vec3Fix { x: 0, y: 0, z: 0 },
        explosion: Explosion { creation_time_ms: created, lifetime_ms: lifetime },
        scale_milli: 0,
    }
}

#[test]
fn progress_is_the_elapsed_fraction() {
    let e = Explosion { creation_time_ms: 0, lifetime_ms: 1000 };
    assert_eq!(e.progress_milli(0), 0);
    assert_eq!(e.progress_milli(500), 500);
    assert_eq!(e.progress_milli(999), 999);
    assert_eq!(e.progress_milli(1000), 1000);
    assert!(!e.is_finished(999));
    assert!(e.is_finished(1000));
    assert!(e.is_finished(1500));
}

#[test]
fn decay_updates_scale_and_removes_finished_explosions() {
    let mut explosions = vec![entity(1, 0, 1000), entity(2, 0, 2000)];
    let events: Vec<ExplosionEvent> = Vec::new();
    let out = explosion_system(&mut explosions, &events, 500);
    assert!(out.despawn.is_empty());
    assert_eq!(explosions[0].scale_milli, 500);
    assert_eq!(explosions[1].scale_milli, 250);

    let out = explosion_system(&mut explosions, &events, 1000);
    assert_eq!(out.despawn, vec![1]);
    assert_eq!(explosions[0].scale_milli, 1000);
    assert_eq!(explosions[1].scale_milli, 500);
}

#[test]
fn zero_lifetime_is_removed_without_division() {
    let mut explosions = vec![entity(1, 0, 0)];
    let events: Vec<ExplosionEvent> = Vec::new();
    let out = explosion_system(&mut explosions, &events, 0);
    assert_eq!(out.despawn, vec![1]);
    // The scale was never computed for it.
    assert_eq!(explosions[0].scale_milli, 0);
}

#[test]
fn each_hit_signal_spawns_one_explosion_at_its_location() {
    let mut explosions: Vec<ExplosionEntity> = Vec::new();
    let events = vec![
        ExplosionEvent { location: Vec3Fix { x: 10, y: 20, z: 0 } },
        ExplosionEvent { location: Vec3Fix { x: -5, y: 0, z: 3 } },
    ];
    let out = explosion_system(&mut explosions, &events, 750);
    assert_eq!(out.spawns.len(), 2);
    assert_eq!(out.spawns[0].location, Vec3Fix { x: 10, y: 20, z: 0 });
    assert_eq!(out.spawns[1].location, Vec3Fix { x: -5, y: 0, z: 3 });
    for s in &out.spawns {
        assert_eq!(s.explosion.creation_time_ms, 750);
        assert_eq!(s.explosion.lifetime_ms, 1000);
    }
    assert!(out.despawn.is_empty());
}
