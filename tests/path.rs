use raytrace::path::{path_advance, path_start, PathEvent, PathState};

#[test]
fn zero_depth_is_black() {
    assert_eq!(path_start(0), PathState::Black);
}

#[test]
fn negative_depth_is_black() {
    assert_eq!(path_start(-3), PathState::Black);
}

#[test]
fn positive_depth_starts_tracing() {
    assert_eq!(path_start(50), PathState::Tracing { remaining: 50 });
}

#[test]
fn miss_ends_in_sky() {
    let s = path_start(3);
    assert_eq!(path_advance(s, PathEvent::Missed), PathState::Sky);
}

#[test]
fn absorbed_ends_in_black() {
    let s = path_start(3);
    assert_eq!(path_advance(s, PathEvent::Absorbed), PathState::Black);
}

#[test]
fn scatter_spends_one_bounce() {
    let s = path_start(2);
    let s = path_advance(s, PathEvent::Scattered);
    assert_eq!(s, PathState::Tracing { remaining: 1 });
    let s = path_advance(s, PathEvent::Scattered);
    assert_eq!(s, PathState::Black);
}

#[test]
fn single_bounce_budget_then_background() {
    let s = path_start(1);
    assert_eq!(path_advance(s, PathEvent::Missed), PathState::Sky);
    assert_eq!(path_advance(s, PathEvent::Scattered), PathState::Black);
}
