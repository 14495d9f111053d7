//! Deciding from its linear velocity whether a die has stopped moving.
//!
//! The test looks at one tick only: a die is at rest when the largest
//! absolute component of its velocity is below [`VEC_EPSILON`]. No square
//! root is taken and no history is kept.

use crate::vector::Vec3;
use vstd::prelude::*;

verus! {

/// Velocities whose components all stay strictly inside this bound count as
/// zero. In thousandths: 0.01 velocity units.
pub const VEC_EPSILON: i64 = 10;

/// The absolute value of an integer.
pub open spec fn abs(a: int) -> int {
    if a < 0 {
        -a
    } else {
        a
    }
}

/// The larger of two integers.
pub open spec fn max(a: int, b: int) -> int {
    if a >= b {
        a
    } else {
        b
    }
}

/// The largest absolute value among the components of `v`.
pub open spec fn max_abs_component(v: Vec3) -> int {
    max(abs(v.x as int), max(abs(v.y as int), abs(v.z as int)))
}

/// Whether a die moving with velocity `v` counts as at rest.
pub open spec fn at_rest(v: Vec3) -> bool {
    max_abs_component(v) < VEC_EPSILON
}

/// The absolute value of `a`, which always fits in a `u64`.
pub fn abs_component(a: i64) -> (m: u64)
    ensures
        m == abs(a as int),
{
    if a >= 0 {
        a as u64
    } else if a == i64::MIN {
        0x8000_0000_0000_0000u64
    } else {
        (-a) as u64
    }
}

/// The largest absolute component of `v`.
pub fn largest_abs_component(v: &Vec3) -> (m: u64)
    ensures
        m == max_abs_component(*v),
{
    let ax: u64 = abs_component(v.x);
    let ay: u64 = abs_component(v.y);
    let az: u64 = abs_component(v.z);
    let ayz: u64 = if ay >= az { ay } else { az };
    if ax >= ayz {
        ax
    } else {
        ayz
    }
}

/// The settle detector: `true` exactly when every component of `velocity`
/// is strictly inside `(-VEC_EPSILON, VEC_EPSILON)`. A component equal to
/// the bound, of either sign, means the die still moves.
pub fn is_at_rest(velocity: &Vec3) -> (rest: bool)
    ensures
        rest == at_rest(*velocity),
{
    largest_abs_component(velocity) < VEC_EPSILON as u64
}

/// A die is at rest exactly when each component of its velocity, taken
/// alone, is below the bound in absolute value: one component at or above
/// it is enough to keep the die moving.
pub proof fn lemma_at_rest_componentwise(v: Vec3)
    ensures
        at_rest(v) <==> (abs(v.x as int) < VEC_EPSILON && abs(v.y as int) < VEC_EPSILON && abs(
            v.z as int,
        ) < VEC_EPSILON),
{
}

} // verus!
