//! Fixed-point vectors and poses on the horizontal plane.
//!
//! A coordinate is an `i64` in milli-units (1000 per world unit). Gameplay
//! reads only the horizontal projection: distances, turn directions and the
//! fire cone are all computed from x and y, while z rides along unchanged.

use vstd::prelude::*;
use vstd::arithmetic::div_mod::{
    lemma_div_by_multiple,
    lemma_div_is_ordered,
    lemma_div_pos_is_pos,
};
use crate::trig::{
    FULL_TURN_MDEG,
    UNIT_MILLI,
    norm_mdeg,
    div_trunc,
    sin_milli,
    cos_milli,
    sin_mdeg,
    cos_mdeg,
    normalize_mdeg,
    lemma_sin_milli_bounds,
    lemma_cos_milli_bounds,
};

verus! {

/// Largest coordinate magnitude the system contracts accept.
pub const POS_LIMIT: i64 = 1_000_000_000_000;

/// Largest coordinate magnitude the geometry helpers accept; one tick of
/// movement from a position within `POS_LIMIT` stays within this.
pub const GEOM_LIMIT: i64 = 2_000_000_000_000;

/// Largest displacement of one tick, in milli-units.
pub const MOVE_LIMIT: i64 = 10_000_000_000;

/// Largest turn of one tick, in milli-degrees.
pub const TURN_LIMIT: i64 = 1_000_000_000_000_000;

/// Largest coordinate magnitude a single movement step accepts: one tick
/// of movement past a position the systems accept.
pub const STEP_LIMIT: i64 = 1_010_000_000_000;

/// A position or direction in milli-units.
#[derive(Clone, Copy, Debug, PartialEq, Eq, Structural)]
pub struct Vec3Fix {
    pub x: i64,
    pub y: i64,
    pub z: i64,
}

pub open spec fn coord_ok(c: int) -> bool {
    -POS_LIMIT <= c <= POS_LIMIT
}

pub open spec fn vec3_ok(v: Vec3Fix) -> bool {
    coord_ok(v.x as int) && coord_ok(v.y as int) && coord_ok(v.z as int)
}

pub open spec fn coord_step_ok(c: int) -> bool {
    -STEP_LIMIT <= c <= STEP_LIMIT
}

pub open spec fn vec3_step_ok(v: Vec3Fix) -> bool {
    coord_step_ok(v.x as int) && coord_step_ok(v.y as int) && coord_step_ok(v.z as int)
}

pub open spec fn coord_geom_ok(c: int) -> bool {
    -GEOM_LIMIT <= c <= GEOM_LIMIT
}

pub open spec fn vec3_geom_ok(v: Vec3Fix) -> bool {
    coord_geom_ok(v.x as int) && coord_geom_ok(v.y as int) && coord_geom_ok(v.z as int)
}

/// Squared horizontal distance, in squared milli-units.
pub open spec fn dist2_xy(a: Vec3Fix, b: Vec3Fix) -> int {
    (a.x - b.x) * (a.x - b.x) + (a.y - b.y) * (a.y - b.y)
}

/// Vertical component of the cross product of `f` (a fixed-point unit
/// vector) and `v`: positive when `v` lies to the left of `f`.
pub open spec fn cross_z(f: Vec3Fix, v: Vec3Fix) -> int {
    f.x * v.y - f.y * v.x
}

/// Horizontal dot product of `f` (a fixed-point unit vector) and `v`.
pub open spec fn dot_xy(f: Vec3Fix, v: Vec3Fix) -> int {
    f.x * v.x + f.y * v.y
}

/// `v` lies strictly inside the quarter-turn cone around `f`: the angle
/// between them is under half of it, i.e. `cos > 1/sqrt(2)`, stated without
/// roots as `dot > 0` and `2 * dot^2 > |f|^2 * |v|^2`.
pub open spec fn in_fire_cone(f: Vec3Fix, v: Vec3Fix) -> bool {
    let d = dot_xy(f, v);
    let n2f = f.x * f.x + f.y * f.y;
    let n2v = v.x * v.x + v.y * v.y;
    d > 0 && 2 * (d * d) > n2f * n2v
}

/// `c` clamped to `[-h, h]`.
pub open spec fn clamped(c: int, h: int) -> int {
    if c < -h {
        -h
    } else if c > h {
        h
    } else {
        c
    }
}

pub open spec fn unit_component_ok(c: int) -> bool {
    -UNIT_MILLI <= c <= UNIT_MILLI
}

/// Computes the squared horizontal distance between two positions.
pub fn calc_dist2_xy(a: &Vec3Fix, b: &Vec3Fix) -> (r: i128)
    requires
        vec3_geom_ok(*a),
        vec3_geom_ok(*b),
    ensures
        r == dist2_xy(*a, *b),
        r >= 0,
{
    let dx = (a.x as i128) - (b.x as i128);
    let dy = (a.y as i128) - (b.y as i128);
    proof {
        assert(dx * dx <= 16_000_000_000_000_000_000_000_000 && dx * dx >= 0)
            by (nonlinear_arith)
            requires
                -4_000_000_000_000 <= dx <= 4_000_000_000_000,
        ;
        assert(dy * dy <= 16_000_000_000_000_000_000_000_000 && dy * dy >= 0)
            by (nonlinear_arith)
            requires
                -4_000_000_000_000 <= dy <= 4_000_000_000_000,
        ;
    }
    dx * dx + dy * dy
}

/// Computes the vertical cross-product component of a fixed-point unit
/// vector `f` with `v`.
pub fn calc_cross_z(f: &Vec3Fix, v: &Vec3Fix) -> (r: i64)
    requires
        unit_component_ok(f.x as int),
        unit_component_ok(f.y as int),
        vec3_geom_ok(*v),
    ensures
        r == cross_z(*f, *v),
{
    proof {
        assert(-2_000_000_000_000_000 <= f.x * v.y <= 2_000_000_000_000_000)
            by (nonlinear_arith)
            requires
                -1000 <= f.x <= 1000,
                -2_000_000_000_000 <= v.y <= 2_000_000_000_000,
        ;
        assert(-2_000_000_000_000_000 <= f.y * v.x <= 2_000_000_000_000_000)
            by (nonlinear_arith)
            requires
                -1000 <= f.y <= 1000,
                -2_000_000_000_000 <= v.x <= 2_000_000_000_000,
        ;
    }
    f.x * v.y - f.y * v.x
}

/// Decides whether `v` lies strictly inside the quarter-turn cone around
/// the fixed-point unit vector `f`.
pub fn calc_in_fire_cone(f: &Vec3Fix, v: &Vec3Fix) -> (r: bool)
    requires
        unit_component_ok(f.x as int),
        unit_component_ok(f.y as int),
        vec3_geom_ok(*v),
    ensures
        r == in_fire_cone(*f, *v),
{
    let fx = f.x as i128;
    let fy = f.y as i128;
    let vx = v.x as i128;
    let vy = v.y as i128;
    proof {
        assert({
            &&& -2_000_000_000_000_000 <= fx * vx <= 2_000_000_000_000_000
            &&& -2_000_000_000_000_000 <= fy * vy <= 2_000_000_000_000_000
            &&& 0 <= fx * fx <= 1_000_000
            &&& 0 <= fy * fy <= 1_000_000
            &&& 0 <= vx * vx <= 4_000_000_000_000_000_000_000_000
            &&& 0 <= vy * vy <= 4_000_000_000_000_000_000_000_000
        })
            by (nonlinear_arith)
            requires
                -1000 <= fx <= 1000,
                -1000 <= fy <= 1000,
                -2_000_000_000_000 <= vx <= 2_000_000_000_000,
                -2_000_000_000_000 <= vy <= 2_000_000_000_000,
        ;
    }
    let d = fx * vx + fy * vy;
    let n2f = fx * fx + fy * fy;
    let n2v = vx * vx + vy * vy;
    proof {
        assert({
            &&& 0 <= d * d <= 16_000_000_000_000_000_000_000_000_000_000
            &&& 0 <= 2 * (d * d) <= 32_000_000_000_000_000_000_000_000_000_000
            &&& 0 <= n2f * n2v <= 16_000_000_000_000_000_000_000_000_000_000
        })
            by (nonlinear_arith)
            requires
                -4_000_000_000_000_000 <= d <= 4_000_000_000_000_000,
                0 <= n2f <= 2_000_000,
                0 <= n2v <= 8_000_000_000_000_000_000_000_000,
        ;
    }
    d > 0 && 2 * (d * d) > n2f * n2v
}

/// Clamps a coordinate to `[-h, h]`.
pub fn clamp_coord(c: i64, h: i64) -> (r: i64)
    requires
        0 <= h,
    ensures
        r == clamped(c as int, h as int),
{
    if c < -h {
        -h
    } else if c > h {
        h
    } else {
        c
    }
}

/// Displacement of a tick along one trigonometric component, in
/// milli-units: the travelled distance times the fixed-point component,
/// scaled back down.
pub open spec fn step_fix(dist: int, trig: int) -> int {
    div_trunc(dist * trig, UNIT_MILLI as int)
}

/// Distance travelled in one tick at `mps` milli-units per second, the
/// delta-time `dt` given in milliseconds.
pub open spec fn move_step_milli(mps: int, dt: int) -> int {
    (mps * dt) / 1000
}

/// Angle turned in one tick at `dps` milli-degrees per second, the
/// delta-time `dt` given in milliseconds.
pub open spec fn turn_step_mdeg(dps: int, dt: int) -> int {
    (dps * dt) / 1000
}

/// The fixed-point unit vector of a pose's heading, as a value.
pub open spec fn forward_of(p: Pose) -> Vec3Fix {
    Vec3Fix {
        x: cos_milli(p.yaw_mdeg as int) as i64,
        y: sin_milli(p.yaw_mdeg as int) as i64,
        z: 0,
    }
}

/// The pose after one tick of turning, as a value.
pub open spec fn rotated_pose(p: Pose, delta: int) -> Pose {
    Pose { position: p.position, yaw_mdeg: norm_mdeg(p.yaw_mdeg + delta) as i64 }
}

/// Position and heading of a simulated entity. Full 3D orientation belongs
/// to presentation; gameplay keeps only the heading about the vertical axis.
#[derive(Clone, Copy, Debug, PartialEq, Eq, Structural)]
pub struct Pose {
    pub position: Vec3Fix,
    pub yaw_mdeg: i64,
}

impl Pose {
    /// The pose's coordinates and heading lie in the ranges the systems
    /// accept.
    pub open spec fn wf(self) -> bool {
        &&& vec3_ok(self.position)
        &&& 0 <= self.yaw_mdeg < FULL_TURN_MDEG
    }

    /// The fixed-point unit vector of the heading.
    pub fn forward(&self) -> (v: Vec3Fix)
        requires
            0 <= self.yaw_mdeg < FULL_TURN_MDEG,
        ensures
            v == forward_of(*self),
            v.x == cos_milli(self.yaw_mdeg as int),
            v.y == sin_milli(self.yaw_mdeg as int),
            v.z == 0,
            unit_component_ok(v.x as int),
            unit_component_ok(v.y as int),
    {
        proof {
            lemma_cos_milli_bounds(self.yaw_mdeg as int);
            lemma_sin_milli_bounds(self.yaw_mdeg as int);
        }
        Vec3Fix { x: cos_mdeg(self.yaw_mdeg), y: sin_mdeg(self.yaw_mdeg), z: 0 }
    }

    /// Turns the pose about the vertical axis by `delta_mdeg`.
    pub fn rotate_z(&mut self, delta_mdeg: i64)
        requires
            0 <= old(self).yaw_mdeg < FULL_TURN_MDEG,
            -TURN_LIMIT <= delta_mdeg <= TURN_LIMIT,
        ensures
            *final(self) == rotated_pose(*old(self), delta_mdeg as int),
            final(self).yaw_mdeg == norm_mdeg(old(self).yaw_mdeg + delta_mdeg),
            0 <= final(self).yaw_mdeg < FULL_TURN_MDEG,
            final(self).position == old(self).position,
    {
        self.yaw_mdeg = normalize_mdeg(self.yaw_mdeg + delta_mdeg);
    }

    /// Moves the pose `dist_milli` milli-units along its heading; the
    /// vertical component and the heading are untouched.
    pub fn advance(&mut self, dist_milli: i64)
        requires
            vec3_step_ok(old(self).position),
            0 <= old(self).yaw_mdeg < FULL_TURN_MDEG,
            0 <= dist_milli <= MOVE_LIMIT,
        ensures
            *final(self) == advanced_pose(*old(self), dist_milli as int),
            final(self).yaw_mdeg == old(self).yaw_mdeg,
            final(self).position.x == old(self).position.x + step_fix(
                dist_milli as int,
                cos_milli(old(self).yaw_mdeg as int),
            ),
            final(self).position.y == old(self).position.y + step_fix(
                dist_milli as int,
                sin_milli(old(self).yaw_mdeg as int),
            ),
            final(self).position.z == old(self).position.z,
            vec3_geom_ok(final(self).position),
            -dist_milli <= final(self).position.x - old(self).position.x <= dist_milli,
            -dist_milli <= final(self).position.y - old(self).position.y <= dist_milli,
    {
        proof {
            lemma_advanced_pose(*self, dist_milli as int);
        }
        let f = self.forward();
        proof {
            assert(-10_000_000_000_000 <= dist_milli * f.x <= 10_000_000_000_000)
                by (nonlinear_arith)
                requires
                    0 <= dist_milli <= 10_000_000_000,
                    -1000 <= f.x <= 1000,
            ;
            assert(-10_000_000_000_000 <= dist_milli * f.y <= 10_000_000_000_000)
                by (nonlinear_arith)
                requires
                    0 <= dist_milli <= 10_000_000_000,
                    -1000 <= f.y <= 1000,
            ;
        }
        let dx = (dist_milli * f.x) / UNIT_MILLI;
        let dy = (dist_milli * f.y) / UNIT_MILLI;
        self.position.x = self.position.x + dx;
        self.position.y = self.position.y + dy;
    }

    /// Moves the pose `dist_milli` milli-units against its heading; the
    /// vertical component and the heading are untouched.
    pub fn retreat(&mut self, dist_milli: i64)
        requires
            vec3_step_ok(old(self).position),
            0 <= old(self).yaw_mdeg < FULL_TURN_MDEG,
            0 <= dist_milli <= MOVE_LIMIT,
        ensures
            *final(self) == retreated_pose(*old(self), dist_milli as int),
            final(self).yaw_mdeg == old(self).yaw_mdeg,
            final(self).position.x == old(self).position.x - step_fix(
                dist_milli as int,
                cos_milli(old(self).yaw_mdeg as int),
            ),
            final(self).position.y == old(self).position.y - step_fix(
                dist_milli as int,
                sin_milli(old(self).yaw_mdeg as int),
            ),
            final(self).position.z == old(self).position.z,
            vec3_geom_ok(final(self).position),
            -dist_milli <= final(self).position.x - old(self).position.x <= dist_milli,
            -dist_milli <= final(self).position.y - old(self).position.y <= dist_milli,
    {
        proof {
            lemma_retreated_pose(*self, dist_milli as int);
        }
        let f = self.forward();
        proof {
            assert(-10_000_000_000_000 <= dist_milli * f.x <= 10_000_000_000_000)
                by (nonlinear_arith)
                requires
                    0 <= dist_milli <= 10_000_000_000,
                    -1000 <= f.x <= 1000,
            ;
            assert(-10_000_000_000_000 <= dist_milli * f.y <= 10_000_000_000_000)
                by (nonlinear_arith)
                requires
                    0 <= dist_milli <= 10_000_000_000,
                    -1000 <= f.y <= 1000,
            ;
        }
        let dx = (dist_milli * f.x) / UNIT_MILLI;
        let dy = (dist_milli * f.y) / UNIT_MILLI;
        self.position.x = self.position.x - dx;
        self.position.y = self.position.y - dy;
    }
}

/// The pose after one tick of forward motion, as a value.
pub open spec fn advanced_pose(p: Pose, dist: int) -> Pose {
    Pose {
        position: Vec3Fix {
            x: (p.position.x + step_fix(dist, cos_milli(p.yaw_mdeg as int))) as i64,
            y: (p.position.y + step_fix(dist, sin_milli(p.yaw_mdeg as int))) as i64,
            z: p.position.z,
        },
        yaw_mdeg: p.yaw_mdeg,
    }
}

/// The pose after one tick of backward motion, as a value.
pub open spec fn retreated_pose(p: Pose, dist: int) -> Pose {
    Pose {
        position: Vec3Fix {
            x: (p.position.x - step_fix(dist, cos_milli(p.yaw_mdeg as int))) as i64,
            y: (p.position.y - step_fix(dist, sin_milli(p.yaw_mdeg as int))) as i64,
            z: p.position.z,
        },
        yaw_mdeg: p.yaw_mdeg,
    }
}

/// One tick's displacement along a unit component never exceeds the
/// travelled distance.
pub proof fn lemma_step_fix_bound(dist: int, trig: int)
    requires
        0 <= dist,
        -(UNIT_MILLI as int) <= trig <= UNIT_MILLI,
    ensures
        -dist <= step_fix(dist, trig) <= dist,
{
    let a = dist * trig;
    assert(-(1000 * dist) <= dist * trig <= 1000 * dist) by (nonlinear_arith)
        requires
            0 <= dist,
            -1000 <= trig <= 1000,
    ;
    lemma_div_by_multiple(dist, 1000);
    if a >= 0 {
        lemma_div_is_ordered(a, 1000 * dist, 1000);
        lemma_div_pos_is_pos(a, 1000);
    } else {
        lemma_div_is_ordered(-a, 1000 * dist, 1000);
        lemma_div_pos_is_pos(-a, 1000);
    }
}

/// Unfolds `advanced_pose` into exact coordinates within range.
pub proof fn lemma_advanced_pose(p: Pose, dist: int)
    requires
        vec3_step_ok(p.position),
        0 <= p.yaw_mdeg < FULL_TURN_MDEG,
        0 <= dist <= MOVE_LIMIT,
    ensures
        advanced_pose(p, dist).yaw_mdeg == p.yaw_mdeg,
        advanced_pose(p, dist).position.x == p.position.x + step_fix(
            dist,
            cos_milli(p.yaw_mdeg as int),
        ),
        advanced_pose(p, dist).position.y == p.position.y + step_fix(
            dist,
            sin_milli(p.yaw_mdeg as int),
        ),
        advanced_pose(p, dist).position.z == p.position.z,
        vec3_geom_ok(advanced_pose(p, dist).position),
        -dist <= step_fix(dist, cos_milli(p.yaw_mdeg as int)) <= dist,
        -dist <= step_fix(dist, sin_milli(p.yaw_mdeg as int)) <= dist,
{
    lemma_cos_milli_bounds(p.yaw_mdeg as int);
    lemma_sin_milli_bounds(p.yaw_mdeg as int);
    lemma_step_fix_bound(dist, cos_milli(p.yaw_mdeg as int));
    lemma_step_fix_bound(dist, sin_milli(p.yaw_mdeg as int));
}

/// Unfolds `retreated_pose` into exact coordinates within range.
pub proof fn lemma_retreated_pose(p: Pose, dist: int)
    requires
        vec3_step_ok(p.position),
        0 <= p.yaw_mdeg < FULL_TURN_MDEG,
        0 <= dist <= MOVE_LIMIT,
    ensures
        retreated_pose(p, dist).yaw_mdeg == p.yaw_mdeg,
        retreated_pose(p, dist).position.x == p.position.x - step_fix(
            dist,
            cos_milli(p.yaw_mdeg as int),
        ),
        retreated_pose(p, dist).position.y == p.position.y - step_fix(
            dist,
            sin_milli(p.yaw_mdeg as int),
        ),
        retreated_pose(p, dist).position.z == p.position.z,
        vec3_geom_ok(retreated_pose(p, dist).position),
        -dist <= step_fix(dist, cos_milli(p.yaw_mdeg as int)) <= dist,
        -dist <= step_fix(dist, sin_milli(p.yaw_mdeg as int)) <= dist,
{
    lemma_cos_milli_bounds(p.yaw_mdeg as int);
    lemma_sin_milli_bounds(p.yaw_mdeg as int);
    lemma_step_fix_bound(dist, cos_milli(p.yaw_mdeg as int));
    lemma_step_fix_bound(dist, sin_milli(p.yaw_mdeg as int));
}

} // verus!
