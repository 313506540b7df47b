//! The shading policy: which terms a light contributes at a hit, and which
//! secondary rays a hit spawns, with the recursion budget that bounds them.
use vstd::prelude::*;
use crate::scalar::{is_positive, positive};

verus! {

/// Ceiling on transparency passes along one ray path. Transparency does not
/// consume reflection depth; this independent limit keeps stacked
/// transparent surfaces from recursing without end.
pub const MAX_TRANSPARENT_PASSES: u32 = 64;

/// Terms a light adds at a hit point.
#[derive(Clone, Copy, Debug, PartialEq, Eq, Structural)]
pub struct LightTerms {
    /// The light faces the surface: add the diffuse term (scaled by the
    /// shadow-tested brightness).
    pub diffuse: bool,
    /// Also add the specular highlight.
    pub specular: bool,
}

/// Decides the light's terms from `dot(n, l)` and `dot(r, l)`, where `n` is
/// the normal, `l` the direction to the light and `r` the mirrored ray. A
/// light behind the surface adds nothing; the highlight needs `dot(r, l) > 0`.
pub fn light_terms(n_dot_l: u32, r_dot_l: u32) -> (r: LightTerms)
    ensures
        r.diffuse == positive(n_dot_l),
        r.specular == (positive(n_dot_l) && positive(r_dot_l)),
{
    let diffuse = is_positive(n_dot_l);
    let specular = diffuse && is_positive(r_dot_l);
    LightTerms { diffuse, specular }
}

/// Recursion state of a ray: reflection bounces and transparency passes
/// evaluated so far along its path.
#[derive(Clone, Copy, Debug, PartialEq, Eq, Structural)]
pub struct Depth {
    pub reflections: u32,
    pub passes: u32,
}

impl Depth {
    pub open spec fn primary_spec() -> Depth {
        Depth { reflections: 0, passes: 0 }
    }

    /// The state of a primary ray.
    pub fn primary() -> (r: Depth)
        ensures
            r == Depth::primary_spec(),
    {
        Depth { reflections: 0, passes: 0 }
    }
}

/// Secondary rays spawned at a hit, each with the state it is traced with.
#[derive(Clone, Copy, Debug, PartialEq, Eq, Structural)]
pub struct SecondaryRays {
    /// Trace the mirrored ray, scaled by the reflection coefficient.
    pub reflect: Option<Depth>,
    /// Scale the local colour by `1 - transparency`, then trace the ray
    /// onward in the same direction, scaled by the transparency coefficient.
    pub transmit: Option<Depth>,
}

/// Reflection is traced when the coefficient is positive and the reflection
/// depth is below the configured maximum, one level deeper. Transparency is
/// traced when its coefficient is positive, at the same reflection depth,
/// within the pass ceiling.
pub open spec fn plan(reflection: u32, transparency: u32, depth: Depth, max_depth: u32) -> SecondaryRays {
    SecondaryRays {
        reflect: if positive(reflection) && depth.reflections < max_depth {
            Some(Depth { reflections: (depth.reflections + 1) as u32, passes: depth.passes })
        } else {
            None
        },
        transmit: if positive(transparency) && depth.passes < MAX_TRANSPARENT_PASSES {
            Some(Depth { reflections: depth.reflections, passes: (depth.passes + 1) as u32 })
        } else {
            None
        },
    }
}

/// How many more recursion levels a ray in state `depth` may still spawn.
pub open spec fn remaining(depth: Depth, max_depth: u32) -> int {
    (if depth.reflections < max_depth { max_depth - depth.reflections } else { 0int }) + (
    if depth.passes < MAX_TRANSPARENT_PASSES {
        MAX_TRANSPARENT_PASSES - depth.passes
    } else {
        0int
    })
}

/// Decides the secondary rays at a hit from the material's reflection and
/// transparency coefficients, the ray's state and the maximum depth.
pub fn secondary_rays(reflection: u32, transparency: u32, depth: Depth, max_depth: u32) -> (r:
    SecondaryRays)
    ensures
        r == plan(reflection, transparency, depth, max_depth),
{
    let reflect = if is_positive(reflection) && depth.reflections < max_depth {
        Some(Depth { reflections: depth.reflections + 1, passes: depth.passes })
    } else {
        None
    };
    let transmit = if is_positive(transparency) && depth.passes < MAX_TRANSPARENT_PASSES {
        Some(Depth { reflections: depth.reflections, passes: depth.passes + 1 })
    } else {
        None
    };
    SecondaryRays { reflect, transmit }
}

/// Depth bounding: at the maximum reflection depth (in particular, with a
/// maximum of zero) no reflected ray is traced, whatever the coefficient;
/// the hit's colour is its local shading (and transparency) alone.
pub proof fn lemma_no_reflection_at_max_depth(
    reflection: u32,
    transparency: u32,
    depth: Depth,
    max_depth: u32,
)
    requires
        depth.reflections >= max_depth,
    ensures
        plan(reflection, transparency, depth, max_depth).reflect is None,
{
}

/// Every secondary ray has strictly less recursion left than its parent, so
/// the recursion of one primary ray ends after at most
/// `max_depth + MAX_TRANSPARENT_PASSES` levels.
pub proof fn lemma_recursion_bounded(
    reflection: u32,
    transparency: u32,
    depth: Depth,
    max_depth: u32,
)
    ensures
        remaining(Depth::primary_spec(), max_depth) == max_depth + MAX_TRANSPARENT_PASSES,
        remaining(depth, max_depth) >= 0,
        plan(reflection, transparency, depth, max_depth).reflect matches Some(d) ==> remaining(
            d,
            max_depth,
        ) < remaining(depth, max_depth),
        plan(reflection, transparency, depth, max_depth).transmit matches Some(d) ==> remaining(
            d,
            max_depth,
        ) < remaining(depth, max_depth),
{
}

} // verus!
