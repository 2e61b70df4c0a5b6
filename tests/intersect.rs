use raytrace::intersect::{choose_root, RootChoice};

#[test]
fn negative_discriminant_misses() {
    assert_eq!(choose_root(true, true, true), RootChoice::Miss);
    assert_eq!(choose_root(true, false, false), RootChoice::Miss);
}

#[test]
fn near_root_wins_when_inside() {
    assert_eq!(choose_root(false, true, true), RootChoice::Near);
    assert_eq!(choose_root(false, true, false), RootChoice::Near);
}

#[test]
fn excluding_near_root_yields_far_root() {
    assert_eq!(choose_root(false, false, true), RootChoice::Far);
}

#[test]
fn ray_pointing_away_from_sphere_misses() {
    // Origin outside the sphere, direction away from it: both roots lie
    // behind the origin, so neither is inside the window past zero.
    assert_eq!(choose_root(false, false, false), RootChoice::Miss);
}
