//! Deterministic fixed-point core of a small arena-combat simulation.
//!
//! Positions are held in milli-units (1000 per world unit), times in
//! milliseconds, and headings in milli-degrees, so that every rule of the
//! simulation — movement, bounds, weapon cooldown, projectile flight and
//! collision, enemy targeting, explosion decay — is integer arithmetic with
//! a proved contract. Rendering, windowing and input plumbing live outside
//! this crate and exchange plain values with it.

pub mod enemy;
pub mod explosion;
pub mod geom;
pub mod physics;
pub mod player;
pub mod rng;
pub mod survival;
pub mod trig;

use vstd::prelude::*;

verus! {

/// Largest magnitude of an absolute simulation time, in milliseconds.
pub const TIME_LIMIT: i64 = 1_000_000_000_000;

/// Largest delta-time of one tick, in milliseconds.
pub const DT_LIMIT: i64 = 1_000_000_000;

/// An absolute simulation time the contracts accept.
pub open spec fn time_ok(t: int) -> bool {
    -TIME_LIMIT <= t <= TIME_LIMIT
}

/// A tick delta-time the contracts accept.
pub open spec fn dt_ok(dt: int) -> bool {
    0 <= dt <= DT_LIMIT
}

} // verus!
