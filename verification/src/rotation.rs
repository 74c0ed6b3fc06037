//! Bounded random-walk rotation integrator.
//!
//! Each cube carries an angular velocity per axis. Every frame, each axis
//! gets a small uniform random perturbation, and overshoot past the speed
//! bounds is folded back inside by a reflecting-boundary clamp, so the walk
//! does not stick at a bound. Speeds are kept in thousandths of a radian per
//! second; the engine-facing shell converts to its own units when it applies
//! the resulting rotation.

use vstd::prelude::*;

verus! {

use rand::RngExt;

/// Magnitude of the rotation speed bound, in thousandths of a radian per
/// second.
pub const MAX_SPEED_MILLI: i64 = 2250;

/// Lower rotation speed bound, in thousandths of a radian per second.
pub const MIN_SPEED_MILLI: i64 = -2250;

/// Largest per-frame perturbation of one axis, in thousandths of a radian
/// per second.
pub const PERTURB_LIMIT_MILLI: i64 = 100;

/// Reflecting-boundary clamp. Overshoot past the high bound is folded back
/// down; a value below the low bound (on its own, or after the first fold)
/// is folded back up. The result of the fold at the low bound is not checked
/// against the high bound again, so an overshoot larger than the span of the
/// bounds can leave the range.
pub open spec fn spec_reflect(v: int, min: int, max: int) -> int {
    let folded = if v > max {
        max - (v - max)
    } else {
        v
    };
    if folded < min {
        min + (min - folded)
    } else {
        folded
    }
}

/// Fold a value that overshot the speed bounds back inside, mirroring around
/// the bound it crossed.
pub fn reflect(v: i64, min: i64, max: i64) -> (r: i64)
    requires
        min <= max,
        -1000000000 <= min <= 1000000000,
        -1000000000 <= max <= 1000000000,
        -1000000000 <= v <= 1000000000,
    ensures
        r == spec_reflect(v as int, min as int, max as int),
{
    let folded: i64 = if v > max {
        max - (v - max)
    } else {
        v
    };
    if folded < min {
        min + (min - folded)
    } else {
        folded
    }
}

/// A speed inside the bounds, perturbed by no more than the span of the
/// bounds, reflects back inside the bounds.
pub proof fn lemma_reflect_stays_in_bounds(v: int, d: int, min: int, max: int)
    requires
        min <= max,
        min <= v <= max,
        -(max - min) <= d <= max - min,
    ensures
        min <= spec_reflect(v + d, min, max) <= max,
{
}

/// Per-object angular velocity, one value per axis, in thousandths of a
/// radian per second.
#[derive(Clone, Copy, PartialEq, Eq, Structural, Debug)]
pub struct RotationState {
    /// Speed about the x axis.
    pub x: i64,
    /// Speed about the y axis.
    pub y: i64,
    /// Speed about the z axis.
    pub z: i64,
}

impl RotationState {
    /// Every axis speed lies within the rotation speed bounds.
    pub open spec fn wf(self) -> bool {
        &&& MIN_SPEED_MILLI <= self.x <= MAX_SPEED_MILLI
        &&& MIN_SPEED_MILLI <= self.y <= MAX_SPEED_MILLI
        &&& MIN_SPEED_MILLI <= self.z <= MAX_SPEED_MILLI
    }

    /// A state from three axis speeds within the bounds.
    pub fn new(x: i64, y: i64, z: i64) -> (r: RotationState)
        requires
            MIN_SPEED_MILLI <= x <= MAX_SPEED_MILLI,
            MIN_SPEED_MILLI <= y <= MAX_SPEED_MILLI,
            MIN_SPEED_MILLI <= z <= MAX_SPEED_MILLI,
        ensures
            r.wf(),
            r.x == x,
            r.y == y,
            r.z == z,
    {
        RotationState { x, y, z }
    }

    /// One random-walk step with given per-axis perturbations: each axis is
    /// perturbed independently and reflected at the bounds, so a state
    /// within bounds stays within bounds.
    pub fn step(&mut self, dx: i64, dy: i64, dz: i64)
        requires
            old(self).wf(),
            -PERTURB_LIMIT_MILLI <= dx <= PERTURB_LIMIT_MILLI,
            -PERTURB_LIMIT_MILLI <= dy <= PERTURB_LIMIT_MILLI,
            -PERTURB_LIMIT_MILLI <= dz <= PERTURB_LIMIT_MILLI,
        ensures
            final(self).wf(),
            final(self).x == spec_reflect(
                old(self).x + dx,
                MIN_SPEED_MILLI as int,
                MAX_SPEED_MILLI as int,
            ),
            final(self).y == spec_reflect(
                old(self).y + dy,
                MIN_SPEED_MILLI as int,
                MAX_SPEED_MILLI as int,
            ),
            final(self).z == spec_reflect(
                old(self).z + dz,
                MIN_SPEED_MILLI as int,
                MAX_SPEED_MILLI as int,
            ),
    {
        proof {
            lemma_reflect_stays_in_bounds(
                old(self).x as int,
                dx as int,
                MIN_SPEED_MILLI as int,
                MAX_SPEED_MILLI as int,
            );
            lemma_reflect_stays_in_bounds(
                old(self).y as int,
                dy as int,
                MIN_SPEED_MILLI as int,
                MAX_SPEED_MILLI as int,
            );
            lemma_reflect_stays_in_bounds(
                old(self).z as int,
                dz as int,
                MIN_SPEED_MILLI as int,
                MAX_SPEED_MILLI as int,
            );
        }
        self.x = reflect(self.x + dx, MIN_SPEED_MILLI, MAX_SPEED_MILLI);
        self.y = reflect(self.y + dy, MIN_SPEED_MILLI, MAX_SPEED_MILLI);
        self.z = reflect(self.z + dz, MIN_SPEED_MILLI, MAX_SPEED_MILLI);
    }

    /// A starting state with each axis speed drawn uniformly from the whole
    /// range of the bounds, as each cube gets at scene setup. Whatever the
    /// draw, the state is within bounds.
    pub fn new_random() -> (r: RotationState)
        ensures
            r.wf(),
    {
        let x = random_in_range(MIN_SPEED_MILLI, MAX_SPEED_MILLI);
        let y = random_in_range(MIN_SPEED_MILLI, MAX_SPEED_MILLI);
        let z = random_in_range(MIN_SPEED_MILLI, MAX_SPEED_MILLI);
        RotationState { x, y, z }
    }

    /// One random-walk step with uniformly drawn perturbations. Whatever the
    /// draw, each axis moves by a reflected perturbation of at most
    /// [`PERTURB_LIMIT_MILLI`], and the state stays within bounds.
    pub fn step_random(&mut self)
        requires
            old(self).wf(),
        ensures
            final(self).wf(),
            exists|d: int|
                -PERTURB_LIMIT_MILLI <= d <= PERTURB_LIMIT_MILLI && final(self).x
                    == #[trigger] spec_reflect(
                    old(self).x + d,
                    MIN_SPEED_MILLI as int,
                    MAX_SPEED_MILLI as int,
                ),
            exists|d: int|
                -PERTURB_LIMIT_MILLI <= d <= PERTURB_LIMIT_MILLI && final(self).y
                    == #[trigger] spec_reflect(
                    old(self).y + d,
                    MIN_SPEED_MILLI as int,
                    MAX_SPEED_MILLI as int,
                ),
            exists|d: int|
                -PERTURB_LIMIT_MILLI <= d <= PERTURB_LIMIT_MILLI && final(self).z
                    == #[trigger] spec_reflect(
                    old(self).z + d,
                    MIN_SPEED_MILLI as int,
                    MAX_SPEED_MILLI as int,
                ),
    {
        let dx = random_in_range(-PERTURB_LIMIT_MILLI, PERTURB_LIMIT_MILLI);
        let dy = random_in_range(-PERTURB_LIMIT_MILLI, PERTURB_LIMIT_MILLI);
        let dz = random_in_range(-PERTURB_LIMIT_MILLI, PERTURB_LIMIT_MILLI);
        self.step(dx, dy, dz);
    }
}

/// Relies on rand::rng and rand::RngExt::random_range: a uniform draw from
/// the nonempty inclusive range `lo..=hi` is a value of that range. The draw
/// depends on a per-thread generator, so nothing beyond membership is
/// stated.
#[verifier::external_body]
fn random_in_range(lo: i64, hi: i64) -> (r: i64)
    requires
        lo <= hi,
    ensures
        lo <= r <= hi,
{
    rand::rng().random_range(lo..=hi)
}

} // verus!
