use vstd::prelude::*;

verus! {

/// Which root of the ray-sphere quadratic `a t^2 - 2 h t + c = 0` a hit
/// test reports. The near root is `(h - sqrt(d)) / a`, the far root
/// `(h + sqrt(d)) / a`; with `a > 0` the near root is never the larger one.
#[derive(Clone, Copy, Debug, PartialEq, Eq, Structural)]
pub enum RootChoice {
    Near,
    Far,
    Miss,
}

/// Picks the root that a hit test reports, from the sign of the
/// discriminant and from whether each root lies strictly inside the query
/// interval.
///
/// The near root wins whenever it is inside; the far root is reported only
/// when the near one is excluded; with a negative discriminant there is no
/// real root and so no hit.
pub fn choose_root(discriminant_negative: bool, near_inside: bool, far_inside: bool) -> (r:
    RootChoice)
    ensures
        r == RootChoice::Near <==> (!discriminant_negative && near_inside),
        r == RootChoice::Far <==> (!discriminant_negative && !near_inside && far_inside),
        r == RootChoice::Miss <==> (discriminant_negative || (!near_inside && !far_inside)),
{
    if discriminant_negative {
        RootChoice::Miss
    } else if near_inside {
        RootChoice::Near
    } else if far_inside {
        RootChoice::Far
    } else {
        RootChoice::Miss
    }
}

} // verus!
