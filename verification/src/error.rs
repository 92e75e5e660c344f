//! What can go wrong in the tracker core.

use vstd::prelude::*;

verus! {

/// The ways in which an operation of this crate fails. None of them is
/// transient: the same call on the same values fails again.
#[derive(Clone, Copy, Debug, PartialEq, Eq, Structural)]
pub enum TrackerError {
    /// A radius is zero or negative, or the two circles coincide. No tracker
    /// is built.
    InvalidConfiguration,
    /// A frame holds an infinity or a NaN. The tracker concerned stops; others
    /// are not affected.
    DegenerateState,
    /// Two sequences that are meant to be paired index by index differ in
    /// length.
    InconsistentBuffers,
}

} // verus!
