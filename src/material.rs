use vstd::prelude::*;

verus! {

/// The three kinds of surface a primitive can have.
#[derive(Clone, Copy, Debug, PartialEq, Eq, Structural)]
pub enum MaterialKind {
    /// Diffuse: scatters around the surface normal.
    Lambertian,
    /// Reflective, with an optional fuzz that perturbs the mirror direction.
    Metal,
    /// Transparent: reflects or refracts.
    Dielectric,
}

/// Which way a dielectric sends a ray on.
#[derive(Clone, Copy, Debug, PartialEq, Eq, Structural)]
pub enum Bounce {
    Reflect,
    Refract,
}

/// Whether a surface of kind `kind` scatters the incoming ray.
///
/// `leaves_surface` tells whether the candidate outgoing direction points
/// away from the surface (positive dot product with the normal). Only a
/// metal looks at it: a perturbed reflection that points into the surface
/// is absorbed. Diffuse and transparent surfaces always scatter.
pub fn scatters(kind: MaterialKind, leaves_surface: bool) -> (r: bool)
    ensures
        kind == MaterialKind::Lambertian ==> r,
        kind == MaterialKind::Metal ==> (r <==> leaves_surface),
        kind == MaterialKind::Dielectric ==> r,
{
    match kind {
        MaterialKind::Lambertian => true,
        MaterialKind::Metal => leaves_surface,
        MaterialKind::Dielectric => true,
    }
}

/// Whether a dielectric reflects or refracts.
///
/// It reflects under total internal reflection (`cannot_refract`: Snell's
/// law has no solution) and when a uniform draw falls below the Schlick
/// reflectance (`reflects_by_chance`); otherwise it refracts.
pub fn dielectric_bounce(cannot_refract: bool, reflects_by_chance: bool) -> (r: Bounce)
    ensures
        r == Bounce::Reflect <==> (cannot_refract || reflects_by_chance),
        r == Bounce::Refract <==> (!cannot_refract && !reflects_by_chance),
{
    if cannot_refract || reflects_by_chance {
        Bounce::Reflect
    } else {
        Bounce::Refract
    }
}

} // verus!
