//! Companion curves: the path moved sideways by a constant distance.
//!
//! The point of a companion curve at index `i` is
//! `points[i] + distance * directions[i]`. The sum and the product are
//! arithmetic on the values and are given as a function; what is done here is
//! to pair the operands index by index and to apply that function to each
//! pair, in order.

use vstd::prelude::*;
use crate::error::TrackerError;
use crate::frame::Vector3;
use crate::scalar::Scalar;
use crate::tracker::KinematicTracker;
use crate::tracker::TrackerState;

verus! {

/// One point of a companion curve before it is evaluated: it stands for
/// `base + distance * direction`.
#[derive(Clone, Copy, Debug, PartialEq, Eq, Structural)]
pub struct OffsetTerm {
    pub base: Vector3,
    pub direction: Vector3,
    pub distance: Scalar,
}

/// The terms of the curve at `distance` from `points` along `directions`:
/// as many as there are points, the term at each index made of the point and
/// the direction at that index.
pub open spec fn offset_terms(points: Seq<Vector3>, directions: Seq<Vector3>, distance: Scalar) -> Seq<
    OffsetTerm,
> {
    Seq::new(
        points.len(),
        |i: int| OffsetTerm { base: points[i], direction: directions[i], distance },
    )
}

/// `curve` is what `combine` makes of `terms`, index by index.
pub open spec fn evaluated<C: Fn(OffsetTerm) -> Vector3>(
    combine: C,
    terms: Seq<OffsetTerm>,
    curve: Seq<Vector3>,
) -> bool {
    &&& curve.len() == terms.len()
    &&& forall|i: int| 0 <= i < terms.len() ==> call_ensures(combine, (terms[i],), #[trigger] curve[i])
}

/// `combine` leaves a point where it is when it is to be moved by zero along
/// a finite direction, as `base + 0.0 * direction` does.
pub open spec fn keeps_base_at_zero<C: Fn(OffsetTerm) -> Vector3>(combine: C) -> bool {
    forall|term: OffsetTerm, point: Vector3|
        #[trigger] call_ensures(combine, (term,), point) && term.distance.zero()
            && term.direction.finite() ==> point.same_value(term.base)
}

/// The companion curve at distance zero is the path itself: where the
/// arithmetic leaves a point in its place when it is moved by zero along a
/// finite direction, every point of the curve at zero equals, as a value, the
/// point of the path at the same index.
pub proof fn lemma_zero_offset_is_the_path<C: Fn(OffsetTerm) -> Vector3>(
    combine: C,
    state: TrackerState,
    distance: Scalar,
    curve: Seq<Vector3>,
)
    requires
        state.valid(),
        distance.zero(),
        keeps_base_at_zero(combine),
        evaluated(
            combine,
            offset_terms(state.trace_points, state.trace_forward_vectors, distance),
            curve,
        ),
    ensures
        curve.len() == state.trace_points.len(),
        forall|i: int|
            0 <= i < curve.len() ==> (#[trigger] curve[i]).same_value(state.trace_points[i]),
{
    let terms = offset_terms(state.trace_points, state.trace_forward_vectors, distance);
    assert forall|i: int| 0 <= i < curve.len() implies (#[trigger] curve[i]).same_value(
        state.trace_points[i],
    ) by {
        assert(call_ensures(combine, (terms[i],), curve[i]));
        assert(state.trace_forward_vectors[i].finite());
    }
}

/// Builds companion curves. It holds nothing: a curve is built anew from the
/// path each time it is asked for.
pub struct OffsetCurveBuilder;

impl OffsetCurveBuilder {
    /// The terms of the curve at `distance` from `points` along `directions`.
    /// Sequences of different lengths cannot be paired.
    pub fn pair(points: &Vec<Vector3>, directions: &Vec<Vector3>, distance: Scalar) -> (r: Result<
        Vec<OffsetTerm>,
        TrackerError,
    >)
        ensures
            r is Ok <==> points@.len() == directions@.len(),
            r is Err ==> r.unwrap_err() == TrackerError::InconsistentBuffers,
            r is Ok ==> r.unwrap()@ == offset_terms(points@, directions@, distance),
    {
        if points.len() != directions.len() {
            return Err(TrackerError::InconsistentBuffers);
        }
        let count: usize = points.len();
        let mut terms: Vec<OffsetTerm> = Vec::new();
        let mut i: usize = 0;
        while i < count
            invariant
                count == points@.len(),
                count == directions@.len(),
                i <= count,
                terms@.len() == i,
                forall|k: int|
                    0 <= k < i ==> terms@[k] == (OffsetTerm {
                        base: points@[k],
                        direction: directions@[k],
                        distance,
                    }),
            decreases count - i,
        {
            terms.push(OffsetTerm { base: points[i], direction: directions[i], distance });
            i = i + 1;
        }
        assert(terms@ =~= offset_terms(points@, directions@, distance));
        Ok(terms)
    }

    /// The curve that `combine` makes of `terms`: as many points as there are
    /// terms, the point at each index being what `combine` returns for the
    /// term at that index.
    pub fn evaluate<C: Fn(OffsetTerm) -> Vector3>(terms: &Vec<OffsetTerm>, combine: C) -> (curve:
        Vec<Vector3>)
        requires
            forall|term: OffsetTerm| call_requires(combine, (term,)),
        ensures
            evaluated(combine, terms@, curve@),
    {
        let mut curve: Vec<Vector3> = Vec::new();
        let mut i: usize = 0;
        while i < terms.len()
            invariant
                forall|term: OffsetTerm| call_requires(combine, (term,)),
                i <= terms@.len(),
                curve@.len() == i,
                forall|k: int|
                    0 <= k < i ==> call_ensures(combine, (terms@[k],), #[trigger] curve@[k]),
            decreases terms@.len() - i,
        {
            let point = combine(terms[i]);
            curve.push(point);
            i = i + 1;
        }
        curve
    }

    /// The companion curve of `tracker`'s path at `radius_offset`: one point
    /// for each tick recorded, which is what `combine` makes of the traced
    /// point's position after that tick, the direction along the arm after
    /// that tick, and `radius_offset`. A tracker's two sequences always pair,
    /// so this does not fail.
    pub fn build_offset<C: Fn(OffsetTerm) -> Vector3>(
        tracker: &KinematicTracker,
        radius_offset: Scalar,
        combine: C,
    ) -> (r: Result<Vec<Vector3>, TrackerError>)
        requires
            forall|term: OffsetTerm| call_requires(combine, (term,)),
        ensures
            r is Ok,
            r.unwrap()@.len() == tracker@.trace_points.len(),
            evaluated(
                combine,
                offset_terms(tracker@.trace_points, tracker@.trace_forward_vectors, radius_offset),
                r.unwrap()@,
            ),
    {
        match OffsetCurveBuilder::pair(
            tracker.trace_points(),
            tracker.trace_forward_vectors(),
            radius_offset,
        ) {
            Ok(terms) => Ok(OffsetCurveBuilder::evaluate(&terms, combine)),
            Err(e) => Err(e),
        }
    }

    /// The inner companion curve: the one at the tracker's inferior radius.
    pub fn build_inferior<C: Fn(OffsetTerm) -> Vector3>(tracker: &KinematicTracker, combine: C) -> (r:
        Result<Vec<Vector3>, TrackerError>)
        requires
            forall|term: OffsetTerm| call_requires(combine, (term,)),
        ensures
            r is Ok,
            evaluated(
                combine,
                offset_terms(
                    tracker@.trace_points,
                    tracker@.trace_forward_vectors,
                    tracker@.settings.inferior_radius,
                ),
                r.unwrap()@,
            ),
    {
        OffsetCurveBuilder::build_offset(tracker, tracker.inferior_radius(), combine)
    }

    /// The outer companion curve: the one at the tracker's superior radius.
    pub fn build_superior<C: Fn(OffsetTerm) -> Vector3>(tracker: &KinematicTracker, combine: C) -> (r:
        Result<Vec<Vector3>, TrackerError>)
        requires
            forall|term: OffsetTerm| call_requires(combine, (term,)),
        ensures
            r is Ok,
            evaluated(
                combine,
                offset_terms(
                    tracker@.trace_points,
                    tracker@.trace_forward_vectors,
                    tracker@.settings.superior_radius,
                ),
                r.unwrap()@,
            ),
    {
        OffsetCurveBuilder::build_offset(tracker, tracker.superior_radius(), combine)
    }
}

} // verus!
