//! The acceptance rules of the two primitive intersection tests.
//!
//! The caller evaluates the formulas of a test in single precision and hands
//! over the bit patterns of the intermediate values; these functions decide
//! whether there is a hit and at which distance.
use vstd::prelude::*;
use crate::scalar::{is_positive, less, magnitude, lt, magnitude_of, positive, EPSILON, ONE, ZERO};

verus! {

/// Sphere rule: no hit when the discriminant is negative; otherwise the near
/// root when it is positive, else the far root when it is positive, else none.
pub open spec fn sphere_rule(disc: u32, near: u32, far: u32) -> Option<u32> {
    if lt(disc, ZERO) {
        None
    } else if positive(near) {
        Some(near)
    } else if positive(far) {
        Some(far)
    } else {
        None
    }
}

/// Ray/triangle rule: a near-zero determinant means a parallel ray; the first
/// barycentric coordinate must lie in `[0, 1]`, the second must be
/// non-negative with the sum at most one; the distance must exceed epsilon.
pub open spec fn triangle_rule(det: u32, u: u32, v: u32, u_plus_v: u32, t: u32) -> Option<u32> {
    if lt(magnitude_of(det), EPSILON) {
        None
    } else if lt(u, ZERO) || lt(ONE, u) {
        None
    } else if lt(v, ZERO) || lt(ONE, u_plus_v) {
        None
    } else if lt(EPSILON, t) {
        Some(t)
    } else {
        None
    }
}

/// Picks the hit distance of a ray against a sphere from the discriminant
/// `b² - |adj|² + r²` and the two roots `-b - sqrt(disc)`, `-b + sqrt(disc)`.
pub fn sphere_root(disc: u32, near: u32, far: u32) -> (r: Option<u32>)
    ensures
        r == sphere_rule(disc, near, far),
        r matches Some(t) ==> positive(t),
{
    if less(disc, ZERO) {
        None
    } else if is_positive(near) {
        Some(near)
    } else if is_positive(far) {
        Some(far)
    } else {
        None
    }
}

/// Decides the Möller–Trumbore test from its determinant, the barycentric
/// coordinates `u`, `v`, their sum and the distance `t`.
pub fn triangle_hit(det: u32, u: u32, v: u32, u_plus_v: u32, t: u32) -> (r: Option<u32>)
    ensures
        r == triangle_rule(det, u, v, u_plus_v, t),
        r matches Some(d) ==> positive(d),
{
    if less(magnitude(det), EPSILON) {
        return None;
    }
    if less(u, ZERO) || less(ONE, u) {
        return None;
    }
    if less(v, ZERO) || less(ONE, u_plus_v) {
        return None;
    }
    if less(EPSILON, t) {
        Some(t)
    } else {
        None
    }
}

/// For a ray whose near root is in front of its origin (an origin outside the
/// sphere, facing it), the sphere is missed exactly when the discriminant is
/// negative; any hit is one of the two roots and lies in front of the origin.
pub proof fn lemma_sphere_miss_iff_negative_discriminant(disc: u32, near: u32, far: u32)
    ensures
        positive(near) ==> (sphere_rule(disc, near, far) is None <==> lt(disc, ZERO)),
        sphere_rule(disc, near, far) matches Some(t) ==> (t == near || t == far) && positive(t),
{
}

} // verus!
