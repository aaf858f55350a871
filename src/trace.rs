use vstd::prelude::*;

verus! {

/// How the colour of a surface hit is composed from the local shading and
/// the colours of the secondary rays.
#[derive(Clone, Copy, Debug, PartialEq, Eq, Structural)]
pub enum Blend {
    /// Local shading alone.
    Local,
    /// `local * max(0, 1 - reflectivity) + reflected * reflectivity`.
    Mirror,
    /// `local * max(0, 1 - reflectivity - transparency)
    ///  + reflected * max(fresnel, reflectivity)
    ///  + refracted * (1 - fresnel) * transparency`.
    Glass,
}

/// The blend for a surface: a transparent one blends in its refracted ray when
/// refraction succeeded and falls back to the mirror blend on total internal
/// reflection; an opaque one is a mirror when it reflects, else local.
pub open spec fn blend_spec(reflective: bool, transparent: bool, refracted: bool) -> Blend {
    if transparent {
        if refracted {
            Blend::Glass
        } else {
            Blend::Mirror
        }
    } else if reflective {
        Blend::Mirror
    } else {
        Blend::Local
    }
}

/// Picks the blend for a hit. `refracted` is read only for a transparent
/// surface, where it says whether a refracted direction exists.
pub fn blend_for(reflective: bool, transparent: bool, refracted: bool) -> (b: Blend)
    ensures
        b == blend_spec(reflective, transparent, refracted),
{
    if transparent {
        if refracted {
            Blend::Glass
        } else {
            Blend::Mirror
        }
    } else if reflective {
        Blend::Mirror
    } else {
        Blend::Local
    }
}

/// What one level of a traced ray does.
#[derive(Clone, Copy, Debug, PartialEq, Eq, Structural)]
pub enum TraceStep {
    /// Depth is exhausted: the ray is black and spawns nothing.
    Black,
    /// The ray hit nothing: it takes the sky colour of its direction.
    Sky,
    /// The ray hit a surface: shade it, trace a reflected ray when `reflect`,
    /// try a refracted ray when `refract`, each with depth `child_depth`.
    Shade { reflect: bool, refract: bool, child_depth: u32 },
}

/// Number of secondary rays that a step may spawn.
pub open spec fn spawned(s: TraceStep) -> int {
    match s {
        TraceStep::Shade { reflect, refract, .. } => (if reflect {
            1int
        } else {
            0
        }) + (if refract {
            1int
        } else {
            0
        }),
        _ => 0,
    }
}

/// The step of a ray traced with `depth` levels left.
pub open spec fn step_spec(depth: u32, hit: bool, reflective: bool, transparent: bool) -> TraceStep {
    if depth == 0 {
        TraceStep::Black
    } else if !hit {
        TraceStep::Sky
    } else {
        TraceStep::Shade {
            reflect: reflective,
            refract: transparent,
            child_depth: (depth - 1) as u32,
        }
    }
}

/// Decides one level of a traced ray: `hit` says whether the ray met a
/// surface, `reflective` and `transparent` describe that surface's material.
pub fn trace_step(depth: u32, hit: bool, reflective: bool, transparent: bool) -> (s: TraceStep)
    ensures
        s == step_spec(depth, hit, reflective, transparent),
{
    if depth == 0 {
        TraceStep::Black
    } else if !hit {
        TraceStep::Sky
    } else {
        TraceStep::Shade { reflect: reflective, refract: transparent, child_depth: depth - 1 }
    }
}

/// With no depth left a ray is black and spawns no ray, whatever it would hit.
pub proof fn lemma_depth_zero_is_black(hit: bool, reflective: bool, transparent: bool)
    ensures
        step_spec(0, hit, reflective, transparent) == TraceStep::Black,
        spawned(step_spec(0, hit, reflective, transparent)) == 0,
{
}

/// Every spawned ray has strictly less depth than its parent, so tracing ends.
pub proof fn lemma_depth_decreases(depth: u32, hit: bool, reflective: bool, transparent: bool)
    ensures
        match step_spec(depth, hit, reflective, transparent) {
            TraceStep::Shade { child_depth, .. } => child_depth < depth,
            _ => spawned(step_spec(depth, hit, reflective, transparent)) == 0,
        },
{
}

/// An opaque surface that does not reflect spawns no ray and shows its local
/// shading alone.
pub proof fn lemma_matte_surface_is_local(depth: u32, refracted: bool)
    ensures
        spawned(step_spec(depth, true, false, false)) == 0,
        blend_spec(false, false, refracted) == Blend::Local,
{
}

} // verus!
