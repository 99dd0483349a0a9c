//! Materials of scene objects: which way each one sends a ray that hits it.
//!
//! The geometry is left to the caller. Each material's choice here takes the
//! results of the comparisons it depends on, and says which direction the
//! scattered ray takes, or that the ray is absorbed.

use vstd::prelude::*;

verus! {

/// Direction of a scattered ray, relative to the hit.
#[derive(Debug, Clone, Copy, PartialEq, Eq, Structural)]
pub enum ScatterDirection {
    /// The surface normal plus a random unit vector.
    NormalPlusRandom,
    /// The surface normal itself.
    Normal,
    /// The mirror reflection of the incoming direction, perturbed by the fuzz.
    FuzzedReflection,
    /// The mirror reflection of the incoming direction.
    Reflection,
    /// The incoming direction refracted through the surface.
    Refraction,
}

/// Default material: it scatters no ray, so whatever it covers absorbs all light.
#[derive(Debug, Clone, Copy)]
pub struct DefaultMaterial;

impl DefaultMaterial {
    /// Wraps the material in a `Box`.
    pub fn boxed(self) -> (b: Box<Self>)
        ensures
            *b == self,
    {
        Box::new(self)
    }

    /// The default material absorbs every ray.
    pub fn scatter_choice(&self) -> (d: Option<ScatterDirection>)
        ensures
            d is None,
    {
        None
    }
}

/// A diffuse surface always scatters: along the normal plus a random unit vector,
/// or along the normal itself when that sum is numerically zero.
pub open spec fn spec_lambertian_choice(degenerate: bool) -> ScatterDirection {
    if degenerate {
        ScatterDirection::Normal
    } else {
        ScatterDirection::NormalPlusRandom
    }
}

/// Scatter choice of a diffuse surface; `degenerate` tells whether the normal plus
/// the random unit vector is near zero in all components.
pub fn lambertian_choice(degenerate: bool) -> (d: Option<ScatterDirection>)
    ensures
        d == Some(spec_lambertian_choice(degenerate)),
{
    if degenerate {
        Some(ScatterDirection::Normal)
    } else {
        Some(ScatterDirection::NormalPlusRandom)
    }
}

/// Scatter choice of a metal surface; `leaves_surface` tells whether the fuzzed
/// reflection has a positive dot product with the normal.
///
/// A reflection that is perpendicular to the surface or points into it is absorbed.
pub fn metal_choice(leaves_surface: bool) -> (d: Option<ScatterDirection>)
    ensures
        leaves_surface ==> d == Some(ScatterDirection::FuzzedReflection),
        !leaves_surface ==> d is None,
{
    if leaves_surface {
        Some(ScatterDirection::FuzzedReflection)
    } else {
        None
    }
}

/// A dielectric reflects where refraction is impossible or where the reflectance
/// beats the random draw, and refracts otherwise.
pub open spec fn spec_dielectric_choice(cannot_refract: bool, reflectance_wins: bool) -> ScatterDirection {
    if cannot_refract || reflectance_wins {
        ScatterDirection::Reflection
    } else {
        ScatterDirection::Refraction
    }
}

/// Scatter choice of a dielectric; `cannot_refract` tells whether Snell's law
/// has no solution (total internal reflection), `reflectance_wins` whether
/// Schlick's reflectance is above the random draw.
pub fn dielectric_choice(cannot_refract: bool, reflectance_wins: bool) -> (d: Option<ScatterDirection>)
    ensures
        d == Some(spec_dielectric_choice(cannot_refract, reflectance_wins)),
{
    if cannot_refract || reflectance_wins {
        Some(ScatterDirection::Reflection)
    } else {
        Some(ScatterDirection::Refraction)
    }
}

} // verus!
