//! Hit response: timed explosion entities spawned from hit signals.
//!
//! A hit signal carries only a location. The response turns each signal
//! into an explosion whose displayed scale is the elapsed fraction of its
//! lifetime, and removes an explosion once that fraction reaches one. A
//! zero lifetime is treated as instantly over, without a division.

use vstd::prelude::*;
use vstd::arithmetic::div_mod::lemma_div_by_multiple;
use crate::geom::Vec3Fix;
use crate::{TIME_LIMIT, time_ok};

verus! {

/// Lifetime given to a newly spawned explosion, in milliseconds.
pub const EXPLOSION_LIFETIME_MS: i64 = 1000;

/// A timed, purely cosmetic entity: it decays and disappears.
#[derive(Clone, Copy, Debug, PartialEq, Eq, Structural)]
pub struct Explosion {
    pub creation_time_ms: i64,
    pub lifetime_ms: i64,
}

/// The ephemeral hit signal: a destructive impact at a location.
#[derive(Clone, Copy, Debug, PartialEq, Eq, Structural)]
pub struct ExplosionEvent {
    pub location: Vec3Fix,
}

/// A live explosion as the simulation tracks it.
#[derive(Clone, Copy, Debug, PartialEq, Eq, Structural)]
pub struct ExplosionEntity {
    pub id: u64,
    pub location: Vec3Fix,
    pub explosion: Explosion,
    pub scale_milli: i64,
}

/// A new explosion requested from a hit signal; the caller owns identity
/// allocation.
#[derive(Clone, Copy, Debug, PartialEq, Eq, Structural)]
pub struct ExplosionSpawn {
    pub location: Vec3Fix,
    pub explosion: Explosion,
}

/// What one pass of the hit response asks of the entity store.
pub struct ExplosionSystemOutcome {
    pub spawns: Vec<ExplosionSpawn>,
    pub despawn: Vec<u64>,
}

impl Explosion {
    /// Times lie in the accepted range and the lifetime is non-negative.
    pub open spec fn wf(self) -> bool {
        &&& time_ok(self.creation_time_ms as int)
        &&& 0 <= self.lifetime_ms <= TIME_LIMIT
    }

    /// Elapsed fraction of the lifetime, in thousandths; meaningful only
    /// for a positive lifetime.
    pub open spec fn progress_milli_of(self, now: int) -> int {
        ((now - self.creation_time_ms) * 1000) / (self.lifetime_ms as int)
    }

    /// The explosion's time is up: a zero lifetime is instantly over,
    /// otherwise the elapsed fraction has reached one.
    pub open spec fn finished(self, now: int) -> bool {
        self.lifetime_ms == 0 || self.progress_milli_of(now) >= 1000
    }

    /// Computes the elapsed fraction of the lifetime, in thousandths.
    pub fn progress_milli(&self, now_ms: i64) -> (r: i64)
        requires
            self.wf(),
            self.lifetime_ms > 0,
            time_ok(now_ms as int),
            now_ms >= self.creation_time_ms,
        ensures
            r == self.progress_milli_of(now_ms as int),
            r >= 0,
    {
        ((now_ms - self.creation_time_ms) * 1000) / self.lifetime_ms
    }

    /// Decides whether the explosion's time is up.
    pub fn is_finished(&self, now_ms: i64) -> (r: bool)
        requires
            self.wf(),
            time_ok(now_ms as int),
            now_ms >= self.creation_time_ms,
        ensures
            r == self.finished(now_ms as int),
    {
        if self.lifetime_ms == 0 {
            true
        } else {
            self.progress_milli(now_ms) >= 1000
        }
    }
}

/// Identities of the explosions in the first `n` of `es` whose time is up
/// at `now`, oldest entry first.
pub open spec fn finished_ids(es: Seq<ExplosionEntity>, now: int, n: int) -> Seq<u64>
    decreases n,
{
    if n <= 0 {
        Seq::empty()
    } else {
        let prev = finished_ids(es, now, n - 1);
        if es[n - 1].explosion.finished(now) {
            prev.push(es[n - 1].id)
        } else {
            prev
        }
    }
}

/// One pass of the hit response: every hit signal becomes a spawn request
/// with `creation_time_ms = now_ms` and the fixed lifetime; every live
/// explosion has its displayed scale set to its elapsed fraction (left
/// alone on a zero lifetime, which skips the division) and is listed for
/// removal exactly when its time is up. Removal is the caller's to apply,
/// so a despawn requested here is not visible to this same pass.
pub fn explosion_system(
    explosions: &mut Vec<ExplosionEntity>,
    events: &Vec<ExplosionEvent>,
    now_ms: i64,
) -> (out: ExplosionSystemOutcome)
    requires
        time_ok(now_ms as int),
        forall|i: int|
            0 <= i < old(explosions)@.len() ==> {
                &&& (#[trigger] old(explosions)@[i]).explosion.wf()
                &&& old(explosions)@[i].explosion.creation_time_ms <= now_ms
            },
    ensures
        out.spawns@.len() == events@.len(),
        forall|i: int|
            0 <= i < events@.len() ==> {
                &&& (#[trigger] out.spawns@[i]).location == events@[i].location
                &&& out.spawns@[i].explosion == (Explosion {
                    creation_time_ms: now_ms,
                    lifetime_ms: EXPLOSION_LIFETIME_MS,
                })
            },
        final(explosions)@.len() == old(explosions)@.len(),
        forall|i: int|
            0 <= i < old(explosions)@.len() ==> {
                &&& (#[trigger] final(explosions)@[i]).id == old(explosions)@[i].id
                &&& final(explosions)@[i].location == old(explosions)@[i].location
                &&& final(explosions)@[i].explosion == old(explosions)@[i].explosion
                &&& final(explosions)@[i].scale_milli == (
                    if old(explosions)@[i].explosion.lifetime_ms == 0 {
                        old(explosions)@[i].scale_milli as int
                    } else {
                        old(explosions)@[i].explosion.progress_milli_of(now_ms as int)
                    }
                )
            },
        out.despawn@ == finished_ids(
            old(explosions)@,
            now_ms as int,
            old(explosions)@.len() as int,
        ),
{
    let mut spawns: Vec<ExplosionSpawn> = Vec::new();
    let mut k: usize = 0;
    while k < events.len()
        invariant
            0 <= k <= events@.len(),
            spawns@.len() == k,
            forall|i: int|
                0 <= i < k ==> {
                    &&& (#[trigger] spawns@[i]).location == events@[i].location
                    &&& spawns@[i].explosion == (Explosion {
                        creation_time_ms: now_ms,
                        lifetime_ms: EXPLOSION_LIFETIME_MS,
                    })
                },
        decreases events@.len() - k,
    {
        spawns.push(
            ExplosionSpawn {
                location: events[k].location,
                explosion: Explosion {
                    creation_time_ms: now_ms,
                    lifetime_ms: EXPLOSION_LIFETIME_MS,
                },
            },
        );
        k = k + 1;
    }

    let ghost orig = explosions@;
    let mut despawn: Vec<u64> = Vec::new();
    let mut j: usize = 0;
    while j < explosions.len()
        invariant
            0 <= j <= orig.len(),
            explosions@.len() == orig.len(),
            time_ok(now_ms as int),
            forall|i: int|
                0 <= i < orig.len() ==> {
                    &&& (#[trigger] orig[i]).explosion.wf()
                    &&& orig[i].explosion.creation_time_ms <= now_ms
                },
            forall|i: int| j <= i < orig.len() ==> #[trigger] explosions@[i] == orig[i],
            forall|i: int|
                0 <= i < j ==> {
                    &&& (#[trigger] explosions@[i]).id == orig[i].id
                    &&& explosions@[i].location == orig[i].location
                    &&& explosions@[i].explosion == orig[i].explosion
                    &&& explosions@[i].scale_milli == (
                        if orig[i].explosion.lifetime_ms == 0 {
                            orig[i].scale_milli as int
                        } else {
                            orig[i].explosion.progress_milli_of(now_ms as int)
                        }
                    )
                },
            despawn@ == finished_ids(orig, now_ms as int, j as int),
        decreases orig.len() - j,
    {
        let e = explosions[j];
        if e.explosion.lifetime_ms == 0 {
            despawn.push(e.id);
        } else {
            let progress = e.explosion.progress_milli(now_ms);
            if progress >= 1000 {
                despawn.push(e.id);
            }
            let mut updated = e;
            updated.scale_milli = progress;
            explosions.set(j, updated);
        }
        j = j + 1;
    }
    ExplosionSystemOutcome { spawns, despawn }
}

/// An explosion of one-second lifetime shows half scale half a second
/// after creation, and is due for removal from one second on.
pub proof fn lemma_explosion_decay(e: Explosion, t0: int, now: int)
    requires
        e.creation_time_ms == t0,
        e.lifetime_ms == 1000,
    ensures
        e.progress_milli_of(t0 + 500) == 500,
        now >= t0 + 1000 ==> e.finished(now),
{
    assert(e.progress_milli_of(t0 + 500) == 500_000int / 1000);
    if now >= t0 + 1000 {
        let k = now - t0;
        lemma_div_by_multiple(k, 1000);
        assert(e.progress_milli_of(now) == (k * 1000) / 1000);
    }
}

} // verus!
