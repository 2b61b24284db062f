//! Weapons, projectiles and collision: the projectile flight system.
//!
//! A blaster authorizes fire requests under a cooldown. A fired projectile
//! advances a flat amount every tick (deliberately not scaled by
//! delta-time, matching the simulation's per-tick displacement rule),
//! expires by age, and collides with the first hittable entity other than
//! its owner that it comes within that entity's radius of.

use vstd::prelude::*;
use crate::geom::{
    Pose,
    Vec3Fix,
    advanced_pose,
    calc_dist2_xy,
    dist2_xy,
    vec3_geom_ok,
    POS_LIMIT,
    MOVE_LIMIT,
};
use crate::explosion::ExplosionEvent;
use crate::{TIME_LIMIT, time_ok};

verus! {

/// Cooldown given to a fresh blaster, in milliseconds.
pub const BLASTER_COOLDOWN_MS: i64 = 1000;

/// Flat per-tick displacement of a projectile, in milli-units.
pub const PROJECTILE_SPEED_MILLI: i64 = 100;

/// Lifetime given to a fired projectile, in milliseconds.
pub const PROJECTILE_LIFETIME_MS: i64 = 1000;

/// Cooldown state of anything that can fire.
#[derive(Clone, Copy, Debug, PartialEq, Eq, Structural)]
pub struct Blaster {
    pub cooldown_ms: i64,
    pub time_of_last_shot_ms: i64,
}

impl Blaster {
    /// Times lie in the accepted range and the cooldown is non-negative.
    pub open spec fn wf(self) -> bool {
        &&& 0 <= self.cooldown_ms <= TIME_LIMIT
        &&& time_ok(self.time_of_last_shot_ms as int)
    }

    /// A shot is authorized at `now`: the last shot lies more than a
    /// cooldown in the past.
    pub open spec fn ready(self, now: int) -> bool {
        self.time_of_last_shot_ms + self.cooldown_ms < now
    }

    /// A fresh blaster, recorded as if it last fired one cooldown before
    /// time zero, so the first shot is legal at any positive time.
    pub fn new(cooldown_ms: i64) -> (b: Blaster)
        requires
            0 <= cooldown_ms <= TIME_LIMIT,
        ensures
            b.cooldown_ms == cooldown_ms,
            b.time_of_last_shot_ms == -cooldown_ms,
            b.wf(),
            forall|now: int| now > 0 ==> b.ready(now),
    {
        Blaster { cooldown_ms, time_of_last_shot_ms: -cooldown_ms }
    }

    /// A fire attempt: succeeds exactly when firing is wanted and the
    /// cooldown has elapsed; on success the time of the last shot becomes
    /// `now_ms`, otherwise nothing changes. The recorded time never moves
    /// backwards.
    pub fn try_fire(&mut self, now_ms: i64, want_fire: bool) -> (fired: bool)
        requires
            old(self).wf(),
            time_ok(now_ms as int),
        ensures
            fired == (want_fire && old(self).ready(now_ms as int)),
            fired ==> *final(self) == (Blaster {
                cooldown_ms: old(self).cooldown_ms,
                time_of_last_shot_ms: now_ms,
            }),
            !fired ==> *final(self) == *old(self),
            final(self).wf(),
            final(self).time_of_last_shot_ms >= old(self).time_of_last_shot_ms,
    {
        if want_fire && self.time_of_last_shot_ms + self.cooldown_ms < now_ms {
            self.time_of_last_shot_ms = now_ms;
            true
        } else {
            false
        }
    }
}

/// Two fire attempts less than a cooldown apart arm at most one shot:
/// after a shot at `now1`, any attempt before `now1 + cooldown` finds the
/// blaster not ready.
pub proof fn lemma_cooldown_monotonic(b1: Blaster, b2: Blaster, now1: int, now2: int)
    requires
        b1.ready(now1),
        b2.cooldown_ms == b1.cooldown_ms,
        b2.time_of_last_shot_ms == now1,
        now2 < now1 + b1.cooldown_ms,
    ensures
        !b2.ready(now2),
{
}

/// A fired projectile: who fired it, when, for how long it lives, and how
/// far it travels each tick.
#[derive(Clone, Copy, Debug, PartialEq, Eq, Structural)]
pub struct Projectile {
    pub owner: u64,
    pub creation_time_ms: i64,
    pub lifetime_ms: i64,
    pub speed_milli: i64,
}

impl Projectile {
    /// Times lie in the accepted range and the per-tick displacement is a
    /// legal one.
    pub open spec fn wf(self) -> bool {
        &&& time_ok(self.creation_time_ms as int)
        &&& 0 <= self.lifetime_ms <= TIME_LIMIT
        &&& 0 <= self.speed_milli <= MOVE_LIMIT
    }

    /// The projectile's age has exceeded its lifetime at `now`.
    pub open spec fn expired(self, now: int) -> bool {
        self.creation_time_ms + self.lifetime_ms < now
    }

    /// Decides whether the projectile's age has exceeded its lifetime.
    pub fn is_expired(&self, now_ms: i64) -> (r: bool)
        requires
            self.wf(),
            time_ok(now_ms as int),
        ensures
            r == self.expired(now_ms as int),
    {
        self.creation_time_ms + self.lifetime_ms < now_ms
    }
}

/// Marks an entity as a valid collision target with a given radius.
#[derive(Clone, Copy, Debug, PartialEq, Eq, Structural)]
pub struct Hittable {
    pub radius_milli: i64,
}

impl Hittable {
    /// The radius is a legal coordinate magnitude.
    pub open spec fn wf(self) -> bool {
        0 <= self.radius_milli <= POS_LIMIT
    }
}

/// A live projectile as the simulation tracks it.
#[derive(Clone, Copy, Debug, PartialEq, Eq, Structural)]
pub struct ProjectileEntity {
    pub id: u64,
    pub pose: Pose,
    pub projectile: Projectile,
}

impl ProjectileEntity {
    pub open spec fn wf(self) -> bool {
        self.pose.wf() && self.projectile.wf()
    }
}

/// A hittable entity as the collision scan sees it.
#[derive(Clone, Copy, Debug, PartialEq, Eq, Structural)]
pub struct TargetEntity {
    pub id: u64,
    pub pose: Pose,
    pub hittable: Hittable,
}

impl TargetEntity {
    pub open spec fn wf(self) -> bool {
        self.pose.wf() && self.hittable.wf()
    }
}

/// A new projectile requested by a successful shot; the caller owns
/// identity allocation.
#[derive(Clone, Copy, Debug, PartialEq, Eq, Structural)]
pub struct ProjectileSpawn {
    pub pose: Pose,
    pub projectile: Projectile,
}

/// A projectile at `ppos` registers a collision against `t`: the target is
/// not the projectile's owner and lies within its own radius horizontally.
pub open spec fn hits(ppos: Vec3Fix, owner: u64, t: TargetEntity) -> bool {
    &&& t.id != owner
    &&& dist2_xy(ppos, t.pose.position) < t.hittable.radius_milli * t.hittable.radius_milli
}

/// Index of the first entry of `targets`, from `j` on, that a projectile
/// at `ppos` owned by `owner` collides with.
pub open spec fn first_hit_from(
    ppos: Vec3Fix,
    owner: u64,
    targets: Seq<TargetEntity>,
    j: int,
) -> Option<int>
    decreases targets.len() - j,
{
    if j < 0 || j >= targets.len() {
        None
    } else if hits(ppos, owner, targets[j]) {
        Some(j)
    } else {
        first_hit_from(ppos, owner, targets, j + 1)
    }
}

/// Index of the first entry of `targets` that a projectile at `ppos`
/// owned by `owner` collides with.
pub open spec fn first_hit(ppos: Vec3Fix, owner: u64, targets: Seq<TargetEntity>) -> Option<int> {
    first_hit_from(ppos, owner, targets, 0)
}

/// What `first_hit_from` finds is a real collision, the earliest one from
/// `j` on; when it finds nothing, nothing from `j` on collides.
pub proof fn lemma_first_hit_from_props(
    ppos: Vec3Fix,
    owner: u64,
    targets: Seq<TargetEntity>,
    j: int,
)
    requires
        0 <= j <= targets.len(),
    ensures
        match first_hit_from(ppos, owner, targets, j) {
            Some(k) => {
                &&& j <= k < targets.len()
                &&& hits(ppos, owner, targets[k])
                &&& forall|m: int| j <= m < k ==> !hits(ppos, owner, #[trigger] targets[m])
            },
            None => forall|m: int| j <= m < targets.len() ==> !hits(ppos, owner, #[trigger] targets[m]),
        },
    decreases targets.len() - j,
{
    if j < targets.len() && !hits(ppos, owner, targets[j]) {
        lemma_first_hit_from_props(ppos, owner, targets, j + 1);
    }
}

/// Self-exclusion: whichever target a projectile's collision scan settles
/// on, it is never the projectile's owner, whatever radius the owner has.
pub proof fn lemma_self_exclusion(
    ppos: Vec3Fix,
    owner: u64,
    targets: Seq<TargetEntity>,
    k: int,
)
    requires
        first_hit(ppos, owner, targets) == Some(k),
    ensures
        0 <= k < targets.len(),
        targets[k].id != owner,
        hits(ppos, owner, targets[k]),
{
    lemma_first_hit_from_props(ppos, owner, targets, 0);
}

/// Scans `targets` in order for the first collision with a projectile at
/// `ppos` owned by `owner`.
fn find_first_hit(ppos: &Vec3Fix, owner: u64, targets: &Vec<TargetEntity>) -> (r: Option<usize>)
    requires
        vec3_geom_ok(*ppos),
        forall|i: int| 0 <= i < targets@.len() ==> (#[trigger] targets@[i]).wf(),
    ensures
        match r {
            Some(k) => k < targets@.len() && first_hit(*ppos, owner, targets@) == Some(k as int),
            None => first_hit(*ppos, owner, targets@) is None,
        },
{
    let mut j: usize = 0;
    while j < targets.len()
        invariant
            0 <= j <= targets@.len(),
            vec3_geom_ok(*ppos),
            forall|i: int| 0 <= i < targets@.len() ==> (#[trigger] targets@[i]).wf(),
            first_hit(*ppos, owner, targets@) == first_hit_from(*ppos, owner, targets@, j as int),
        decreases targets@.len() - j,
    {
        let t = &targets[j];
        if t.id != owner {
            let d2 = calc_dist2_xy(ppos, &t.pose.position);
            let radius = t.hittable.radius_milli as i128;
            proof {
                assert(radius * radius == t.hittable.radius_milli * t.hittable.radius_milli);
                assert(0 <= radius * radius <= 1_000_000_000_000_000_000_000_000)
                    by (nonlinear_arith)
                    requires
                        0 <= radius <= 1_000_000_000_000,
                ;
            }
            if d2 < radius * radius {
                return Some(j);
            }
        }
        j = j + 1;
    }
    None
}

/// A projectile one tick later, before collision resolution: unchanged if
/// expired, otherwise advanced a flat `speed_milli` along its heading.
pub open spec fn stepped_projectile(pe: ProjectileEntity, now: int) -> ProjectileEntity {
    if pe.projectile.expired(now) {
        pe
    } else {
        ProjectileEntity {
            id: pe.id,
            pose: advanced_pose(pe.pose, pe.projectile.speed_milli as int),
            projectile: pe.projectile,
        }
    }
}

/// The target index a projectile settles on this tick: none when it
/// expires, else the first collision from its advanced position.
pub open spec fn projectile_hit_index(
    pe: ProjectileEntity,
    now: int,
    targets: Seq<TargetEntity>,
) -> Option<int> {
    if pe.projectile.expired(now) {
        None
    } else {
        first_hit(
            advanced_pose(pe.pose, pe.projectile.speed_milli as int).position,
            pe.projectile.owner,
            targets,
        )
    }
}

/// Identities of the projectiles among the first `n` of `ps` that this
/// tick destroys, by expiry or by collision, in scan order.
pub open spec fn swept_despawn_projectiles(
    ps: Seq<ProjectileEntity>,
    now: int,
    targets: Seq<TargetEntity>,
    n: int,
) -> Seq<u64>
    decreases n,
{
    if n <= 0 {
        Seq::empty()
    } else {
        let prev = swept_despawn_projectiles(ps, now, targets, n - 1);
        let pe = ps[n - 1];
        if pe.projectile.expired(now) {
            prev.push(pe.id)
        } else {
            match projectile_hit_index(pe, now, targets) {
                Some(_) => prev.push(pe.id),
                None => prev,
            }
        }
    }
}

/// Identities of the targets that the first `n` of `ps` destroy this
/// tick, in scan order; destruction is deferred, so one target may be
/// listed by several projectiles.
pub open spec fn swept_despawn_targets(
    ps: Seq<ProjectileEntity>,
    now: int,
    targets: Seq<TargetEntity>,
    n: int,
) -> Seq<u64>
    decreases n,
{
    if n <= 0 {
        Seq::empty()
    } else {
        let prev = swept_despawn_targets(ps, now, targets, n - 1);
        match projectile_hit_index(ps[n - 1], now, targets) {
            Some(k) => prev.push(targets[k].id),
            None => prev,
        }
    }
}

/// Hit signals the first `n` of `ps` emit this tick, at the position of
/// each destroyed target, in scan order.
pub open spec fn swept_events(
    ps: Seq<ProjectileEntity>,
    now: int,
    targets: Seq<TargetEntity>,
    n: int,
) -> Seq<ExplosionEvent>
    decreases n,
{
    if n <= 0 {
        Seq::empty()
    } else {
        let prev = swept_events(ps, now, targets, n - 1);
        match projectile_hit_index(ps[n - 1], now, targets) {
            Some(k) => prev.push(ExplosionEvent { location: targets[k].pose.position }),
            None => prev,
        }
    }
}

/// What one pass of projectile flight asks of the entity store.
pub struct ProjectileSystemOutcome {
    pub despawn_projectiles: Vec<u64>,
    pub despawn_targets: Vec<u64>,
    pub events: Vec<ExplosionEvent>,
}

/// One pass of projectile flight. Every live projectile first has its age
/// checked: an expired one is listed for destruction and skips the rest of
/// its tick. A live one advances a flat `speed_milli` along its heading,
/// then scans the targets in order and settles on the first entity, other
/// than its owner, within that entity's radius; projectile and target are
/// then both listed for destruction and one hit signal is emitted at the
/// target's position. Destruction is the caller's to apply after the pass,
/// so a target destroyed here is still seen by later projectiles of the
/// same pass, while a projectile never registers more than one hit.
pub fn projectile_physics_system(
    projectiles: &mut Vec<ProjectileEntity>,
    targets: &Vec<TargetEntity>,
    now_ms: i64,
) -> (out: ProjectileSystemOutcome)
    requires
        time_ok(now_ms as int),
        forall|i: int| 0 <= i < old(projectiles)@.len() ==> (#[trigger] old(projectiles)@[i]).wf(),
        forall|i: int| 0 <= i < targets@.len() ==> (#[trigger] targets@[i]).wf(),
    ensures
        final(projectiles)@.len() == old(projectiles)@.len(),
        forall|i: int|
            0 <= i < old(projectiles)@.len() ==> #[trigger] final(projectiles)@[i]
                == stepped_projectile(old(projectiles)@[i], now_ms as int),
        out.despawn_projectiles@ == swept_despawn_projectiles(
            old(projectiles)@,
            now_ms as int,
            targets@,
            old(projectiles)@.len() as int,
        ),
        out.despawn_targets@ == swept_despawn_targets(
            old(projectiles)@,
            now_ms as int,
            targets@,
            old(projectiles)@.len() as int,
        ),
        out.events@ == swept_events(
            old(projectiles)@,
            now_ms as int,
            targets@,
            old(projectiles)@.len() as int,
        ),
{
    let ghost orig = projectiles@;
    let mut despawn_projectiles: Vec<u64> = Vec::new();
    let mut despawn_targets: Vec<u64> = Vec::new();
    let mut events: Vec<ExplosionEvent> = Vec::new();
    let mut i: usize = 0;
    while i < projectiles.len()
        invariant
            0 <= i <= orig.len(),
            projectiles@.len() == orig.len(),
            time_ok(now_ms as int),
            forall|k: int| 0 <= k < orig.len() ==> (#[trigger] orig[k]).wf(),
            forall|k: int| 0 <= k < targets@.len() ==> (#[trigger] targets@[k]).wf(),
            forall|k: int| i <= k < orig.len() ==> #[trigger] projectiles@[k] == orig[k],
            forall|k: int|
                0 <= k < i ==> #[trigger] projectiles@[k] == stepped_projectile(
                    orig[k],
                    now_ms as int,
                ),
            despawn_projectiles@ == swept_despawn_projectiles(
                orig,
                now_ms as int,
                targets@,
                i as int,
            ),
            despawn_targets@ == swept_despawn_targets(orig, now_ms as int, targets@, i as int),
            events@ == swept_events(orig, now_ms as int, targets@, i as int),
        decreases orig.len() - i,
    {
        let pe = projectiles[i];
        if pe.projectile.is_expired(now_ms) {
            despawn_projectiles.push(pe.id);
        } else {
            let mut moved = pe;
            moved.pose.advance(pe.projectile.speed_milli);
            projectiles.set(i, moved);
            match find_first_hit(&moved.pose.position, pe.projectile.owner, targets) {
                Some(k) => {
                    despawn_projectiles.push(pe.id);
                    despawn_targets.push(targets[k].id);
                    events.push(ExplosionEvent { location: targets[k].pose.position });
                },
                None => {},
            }
        }
        i = i + 1;
    }
    ProjectileSystemOutcome { despawn_projectiles, despawn_targets, events }
}

/// Self-exclusion at the system level: whatever target a projectile's
/// tick settles on, it is not the projectile's owner, whatever radius the
/// owner carries.
pub proof fn lemma_hit_not_owner(
    pe: ProjectileEntity,
    now: int,
    targets: Seq<TargetEntity>,
    k: int,
)
    requires
        projectile_hit_index(pe, now, targets) == Some(k),
    ensures
        0 <= k < targets.len(),
        targets[k].id != pe.projectile.owner,
{
    lemma_self_exclusion(
        advanced_pose(pe.pose, pe.projectile.speed_milli as int).position,
        pe.projectile.owner,
        targets,
        k,
    );
}

proof fn lemma_expiry_from(
    ps: Seq<ProjectileEntity>,
    now: int,
    targets: Seq<TargetEntity>,
    i: int,
    n: int,
)
    requires
        0 <= i < n <= ps.len(),
        ps[i].projectile.expired(now),
    ensures
        swept_despawn_projectiles(ps, now, targets, n).contains(ps[i].id),
    decreases n,
{
    let prev = swept_despawn_projectiles(ps, now, targets, n - 1);
    if n - 1 == i {
        assert(swept_despawn_projectiles(ps, now, targets, n) == prev.push(ps[i].id));
        assert(prev.push(ps[i].id)[prev.len() as int] == ps[i].id);
    } else {
        lemma_expiry_from(ps, now, targets, i, n - 1);
        let w = choose|w: int| 0 <= w < prev.len() && prev[w] == ps[i].id;
        assert(swept_despawn_projectiles(ps, now, targets, n)[w] == ps[i].id);
    }
}

/// Expiry: a projectile whose age has exceeded its lifetime at `now` is
/// destroyed by this tick's sweep, regardless of any collision.
pub proof fn lemma_expiry(
    ps: Seq<ProjectileEntity>,
    now: int,
    targets: Seq<TargetEntity>,
    i: int,
)
    requires
        0 <= i < ps.len(),
        ps[i].projectile.expired(now),
    ensures
        swept_despawn_projectiles(ps, now, targets, ps.len() as int).contains(ps[i].id),
{
    lemma_expiry_from(ps, now, targets, i, ps.len() as int);
}

} // verus!
