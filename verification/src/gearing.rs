//! The rolling-without-slipping constraint.
//!
//! A circle of radius `r` that rolls inside a circle of radius `R` without
//! slipping, and whose centre goes round by an angle `a`, turns about its own
//! centre by `-(R / r) * a`: the arc that the point of contact covers on the
//! outer circle is the arc that is rolled off the inner one. The quotient and
//! the product are arithmetic on the values and are the caller's; what is
//! settled here is that the quotient exists.

use vstd::prelude::*;
use crate::error::TrackerError;
use crate::scalar::Scalar;

verus! {

/// The three numbers that the spin of the rolling circle is computed from,
/// with an inner radius that is not zero.
#[derive(Clone, Copy, Debug, PartialEq, Eq, Structural)]
pub struct Gearing {
    outer_radius: Scalar,
    inner_radius: Scalar,
    revolution_rate: Scalar,
}

impl Gearing {
    #[verifier::type_invariant]
    spec fn divisible(self) -> bool {
        !self.inner_radius.zero()
    }

    /// The constraint made of these three numbers.
    pub closed spec fn rolling(
        outer_radius: Scalar,
        inner_radius: Scalar,
        revolution_rate: Scalar,
    ) -> Gearing {
        Gearing { outer_radius, inner_radius, revolution_rate }
    }

    pub closed spec fn spec_outer_radius(&self) -> Scalar {
        self.outer_radius
    }

    pub closed spec fn spec_inner_radius(&self) -> Scalar {
        self.inner_radius
    }

    pub closed spec fn spec_revolution_rate(&self) -> Scalar {
        self.revolution_rate
    }

    /// The constraint between a centre that goes round by `revolution_rate`
    /// per tick and the spin of a circle of `inner_radius` inside one of
    /// `outer_radius`. There is none for an inner radius of zero.
    pub fn new(outer_radius: Scalar, inner_radius: Scalar, revolution_rate: Scalar) -> (r: Result<
        Gearing,
        TrackerError,
    >)
        ensures
            r is Err <==> inner_radius.zero(),
            r is Err ==> r == Err::<Gearing, TrackerError>(TrackerError::InvalidConfiguration),
            r is Ok ==> r.unwrap() == Gearing::rolling(outer_radius, inner_radius, revolution_rate),
            r is Ok ==> r.unwrap().outer_radius() == outer_radius,
            r is Ok ==> r.unwrap().inner_radius() == inner_radius,
            r is Ok ==> r.unwrap().revolution_rate() == revolution_rate,
    {
        if inner_radius.is_zero() {
            Err(TrackerError::InvalidConfiguration)
        } else {
            Ok(Gearing::of_rolling(outer_radius, inner_radius, revolution_rate))
        }
    }

    /// The constraint for an inner radius that is known not to be zero.
    pub(crate) fn of_rolling(
        outer_radius: Scalar,
        inner_radius: Scalar,
        revolution_rate: Scalar,
    ) -> (g: Gearing)
        requires
            !inner_radius.zero(),
        ensures
            g == Gearing::rolling(outer_radius, inner_radius, revolution_rate),
            g.outer_radius() == outer_radius,
            g.inner_radius() == inner_radius,
            g.revolution_rate() == revolution_rate,
    {
        Gearing { outer_radius, inner_radius, revolution_rate }
    }

    /// A constraint holds the numbers that it was made of.
    pub proof fn lemma_rolling_holds(
        outer_radius: Scalar,
        inner_radius: Scalar,
        revolution_rate: Scalar,
    )
        ensures
            Gearing::rolling(outer_radius, inner_radius, revolution_rate).outer_radius()
                == outer_radius,
            Gearing::rolling(outer_radius, inner_radius, revolution_rate).inner_radius()
                == inner_radius,
            Gearing::rolling(outer_radius, inner_radius, revolution_rate).revolution_rate()
                == revolution_rate,
    {
    }

    /// The radius `R` of the circle that stands still.
    #[verifier::when_used_as_spec(spec_outer_radius)]
    pub fn outer_radius(&self) -> (r: Scalar)
        ensures
            r == self.outer_radius(),
    {
        self.outer_radius
    }

    /// The radius `r` of the circle that rolls; never zero.
    #[verifier::when_used_as_spec(spec_inner_radius)]
    pub fn inner_radius(&self) -> (r: Scalar)
        ensures
            r == self.inner_radius(),
            !r.zero(),
    {
        proof {
            use_type_invariant(self);
        }
        self.inner_radius
    }

    /// The angle by which the rolling circle's centre goes round per tick.
    #[verifier::when_used_as_spec(spec_revolution_rate)]
    pub fn revolution_rate(&self) -> (r: Scalar)
        ensures
            r == self.revolution_rate(),
    {
        self.revolution_rate
    }
}

} // verus!
