use vstd::prelude::*;

verus! {

/// What the hit test of one bounce found.
#[derive(Clone, Copy, Debug, PartialEq, Eq, Structural)]
pub enum PathEvent {
    /// The ray hit nothing and escapes to the background.
    Missed,
    /// The ray hit a surface whose material did not scatter it.
    Absorbed,
    /// The ray hit a surface and the material sent out a scattered ray.
    Scattered,
}

/// Where one light path stands.
///
/// The colour of a path is the product of the attenuations of its scatter
/// events, times black for a path that ends in `Black` or times the
/// background gradient of the last ray for one that ends in `Sky`.
#[derive(Clone, Copy, Debug, PartialEq, Eq, Structural)]
pub enum PathState {
    /// A hit test is still owed, with `remaining` bounces left in the budget.
    Tracing { remaining: i32 },
    /// The path ends in black: its energy was absorbed, or the bounce
    /// budget ran out.
    Black,
    /// The path escaped; it ends in the background colour.
    Sky,
}

/// The state of a path that is given a budget of `depth` bounces.
pub open spec fn begin(depth: i32) -> PathState {
    if depth <= 0 {
        PathState::Black
    } else {
        PathState::Tracing { remaining: depth }
    }
}

/// The state after one hit test has produced `e`; a finished path stays
/// as it is.
pub open spec fn advance(s: PathState, e: PathEvent) -> PathState {
    match s {
        PathState::Tracing { remaining } => match e {
            PathEvent::Missed => PathState::Sky,
            PathEvent::Absorbed => PathState::Black,
            PathEvent::Scattered => if remaining <= 1 {
                PathState::Black
            } else {
                PathState::Tracing { remaining: (remaining - 1) as i32 }
            },
        },
        _ => s,
    }
}

/// The state reached from `s` by the hit-test results `events`, in order.
pub open spec fn run(s: PathState, events: Seq<PathEvent>) -> PathState
    decreases events.len(),
{
    if events.len() == 0 {
        s
    } else {
        run(advance(s, events[0]), events.drop_first())
    }
}

/// Starts a path with a budget of `depth` bounces; with no budget left the
/// path is black before any hit test.
pub fn path_start(depth: i32) -> (r: PathState)
    ensures
        r == begin(depth),
        depth <= 0 ==> r == PathState::Black,
        depth > 0 ==> r == (PathState::Tracing { remaining: depth }),
{
    if depth <= 0 {
        PathState::Black
    } else {
        PathState::Tracing { remaining: depth }
    }
}

/// Moves a path on by the result of its pending hit test: a miss ends in
/// the background, an absorbing hit ends in black, and a scattered ray goes
/// on with one bounce less.
pub fn path_advance(state: PathState, event: PathEvent) -> (r: PathState)
    requires
        state is Tracing,
    ensures
        r == advance(state, event),
        event == PathEvent::Missed ==> r == PathState::Sky,
        event == PathEvent::Absorbed ==> r == PathState::Black,
        event == PathEvent::Scattered && state->remaining <= 1 ==> r == PathState::Black,
        event == PathEvent::Scattered && state->remaining > 1 ==> r == (PathState::Tracing {
            remaining: (state->remaining - 1) as i32,
        }),
{
    match state {
        PathState::Tracing { remaining } => match event {
            PathEvent::Missed => PathState::Sky,
            PathEvent::Absorbed => PathState::Black,
            PathEvent::Scattered => if remaining <= 1 {
                PathState::Black
            } else {
                PathState::Tracing { remaining: remaining - 1 }
            },
        },
        _ => state,
    }
}

/// A path with no bounce budget is black, whatever the scene would have
/// answered to its hit tests.
pub proof fn lemma_no_budget_is_black(depth: i32, events: Seq<PathEvent>)
    requires
        depth <= 0,
    ensures
        run(begin(depth), events) == PathState::Black,
    decreases events.len(),
{
    if events.len() > 0 {
        lemma_finished_stays(PathState::Black, events);
    }
}

/// A finished path is not changed by further events.
pub proof fn lemma_finished_stays(s: PathState, events: Seq<PathEvent>)
    requires
        !(s is Tracing),
    ensures
        run(s, events) == s,
    decreases events.len(),
{
    if events.len() > 0 {
        lemma_finished_stays(advance(s, events[0]), events.drop_first());
    }
}

/// A path given `depth` bounces makes at most `depth` hit tests: after that
/// many events it has ended, in black or in the background.
pub proof fn lemma_budget_bounds_bounces(depth: i32, events: Seq<PathEvent>)
    requires
        events.len() >= depth,
    ensures
        !(run(begin(depth), events) is Tracing),
    decreases events.len(),
{
    if depth <= 0 {
        lemma_no_budget_is_black(depth, events);
    } else {
        let next = advance(begin(depth), events[0]);
        if next is Tracing {
            lemma_budget_bounds_bounces((depth - 1) as i32, events.drop_first());
        } else {
            lemma_finished_stays(next, events.drop_first());
        }
    }
}

} // verus!
