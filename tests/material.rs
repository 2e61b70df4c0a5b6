use raytrace::material::{dielectric_bounce, scatters, Bounce, MaterialKind};

#[test]
fn lambertian_always_scatters() {
    assert!(scatters(MaterialKind::Lambertian, true));
    assert!(scatters(MaterialKind::Lambertian, false));
}

#[test]
fn metal_absorbs_rays_into_surface() {
    assert!(scatters(MaterialKind::Metal, true));
    assert!(!scatters(MaterialKind::Metal, false));
}

#[test]
fn dielectric_always_scatters() {
    assert!(scatters(MaterialKind::Dielectric, true));
    assert!(scatters(MaterialKind::Dielectric, false));
}

#[test]
fn total_internal_reflection_reflects() {
    assert_eq!(dielectric_bounce(true, false), Bounce::Reflect);
    assert_eq!(dielectric_bounce(true, true), Bounce::Reflect);
}

#[test]
fn schlick_draw_decides_reflection() {
    assert_eq!(dielectric_bounce(false, true), Bounce::Reflect);
    assert_eq!(dielectric_bounce(false, false), Bounce::Refract);
}
