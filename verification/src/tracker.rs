//! The kinematic tracker: four coupled frames and the path that one of them
//! leaves behind.
//!
//! The tracker decides what is turned about which point and in which order,
//! and keeps what comes of it; the turning itself is arithmetic on the values
//! and is given to the tracker as functions (see [`crate::motion`]). An
//! outcome that holds an infinity or a NaN is not kept: it stops the tracker.

use vstd::prelude::*;
use crate::error::TrackerError;
use crate::frame::GeometricFrame;
use crate::frame::Vector3;
use crate::gearing::Gearing;
use crate::motion::arm_placement;
use crate::motion::inner_placement;
use crate::motion::point_placement;
use crate::motion::single_valued;
use crate::motion::AxisMode;
use crate::motion::Placement;
use crate::motion::Revolution;
use crate::motion::RollingFrames;
use crate::motion::Spin;
use crate::motion::SpunFrames;
use crate::motion::TickUpdate;
use crate::scalar::Scalar;

verus! {

/// What a tracker is built with besides its radii and frames.
#[derive(Clone, Copy, Debug, PartialEq, Eq, Structural)]
pub struct TrackerSettings {
    /// The angle by which the rolling circle's centre goes round per tick.
    pub revolution_rate: Scalar,
    /// The revolution rate is never set below this.
    pub min_revolution_rate: Scalar,
    /// The revolution rate is never set above this.
    pub max_revolution_rate: Scalar,
    pub axis_mode: AxisMode,
    /// The offset of the inner companion curve; negative by convention.
    pub inferior_radius: Scalar,
    /// The offset of the outer companion curve; positive by convention.
    pub superior_radius: Scalar,
}

/// The radii describe two circles, one of which can roll in the other: both
/// are greater than zero and they differ.
pub open spec fn radii_valid(inner_radius: Scalar, outer_radius: Scalar) -> bool {
    &&& !inner_radius.at_most(Scalar { bits: 0 })
    &&& !outer_radius.at_most(Scalar { bits: 0 })
    &&& !inner_radius.same_value(outer_radius)
}

/// What a tracker is, as values.
pub struct TrackerState {
    pub inner_radius: Scalar,
    pub outer_radius: Scalar,
    pub settings: TrackerSettings,
    pub offsets_shown: bool,
    /// The frame of the outer circle. It never moves.
    pub outer_frame: GeometricFrame,
    /// The moving frames as they were when the tracker was built.
    pub initial: RollingFrames,
    /// The moving frames as they are.
    pub rolling: RollingFrames,
    /// The tracker has stopped: a frame of it held, or was about to hold, an
    /// infinity or a NaN.
    pub degenerate: bool,
    /// Where the traced point was after each tick, oldest first.
    pub trace_points: Seq<Vector3>,
    /// The direction along the arm after each tick, oldest first.
    pub trace_forward_vectors: Seq<Vector3>,
}

impl TrackerState {
    /// The two sequences pair up index by index.
    pub open spec fn paired(self) -> bool {
        self.trace_points.len() == self.trace_forward_vectors.len()
    }

    /// Nothing that was recorded holds an infinity or a NaN.
    pub open spec fn trace_finite(self) -> bool {
        &&& forall|i: int| 0 <= i < self.trace_points.len() ==> (#[trigger] self.trace_points[i]).finite()
        &&& forall|i: int|
            0 <= i < self.trace_forward_vectors.len() ==> (
            #[trigger] self.trace_forward_vectors[i]).finite()
    }

    /// What holds of every tracker.
    pub open spec fn valid(self) -> bool {
        &&& radii_valid(self.inner_radius, self.outer_radius)
        &&& self.paired()
        &&& self.trace_finite()
        &&& !self.degenerate ==> self.outer_frame.finite() && self.rolling.finite()
    }

    /// The tracker as it is built from these values.
    pub open spec fn fresh(
        inner_radius: Scalar,
        outer_radius: Scalar,
        starting_pose: GeometricFrame,
        placed: RollingFrames,
        settings: TrackerSettings,
    ) -> TrackerState {
        TrackerState {
            inner_radius,
            outer_radius,
            settings: TrackerSettings {
                revolution_rate: settings.revolution_rate.clamped(
                    settings.min_revolution_rate,
                    settings.max_revolution_rate,
                ),
                ..settings
            },
            offsets_shown: true,
            outer_frame: starting_pose,
            initial: placed,
            rolling: placed,
            degenerate: !(starting_pose.finite() && placed.finite()),
            trace_points: Seq::empty(),
            trace_forward_vectors: Seq::empty(),
        }
    }

    /// The tick whose outcome is `update` can be taken in.
    pub open spec fn accepts(self, update: TickUpdate) -> bool {
        !self.degenerate && update.finite()
    }

    /// The tracker after the tick whose outcome is `update`: moved on and one
    /// sample longer if the tick is accepted, stopped if it is not.
    pub open spec fn advanced(self, update: TickUpdate) -> TrackerState {
        if self.accepts(update) {
            TrackerState {
                rolling: update.frames,
                trace_points: self.trace_points.push(update.frames.point.position),
                trace_forward_vectors: self.trace_forward_vectors.push(update.forward),
                ..self
            }
        } else {
            TrackerState { degenerate: true, ..self }
        }
    }

    /// The tracker after the ticks whose outcomes are `updates`, in turn.
    pub open spec fn run(self, updates: Seq<TickUpdate>) -> TrackerState
        decreases updates.len(),
    {
        if updates.len() == 0 {
            self
        } else {
            self.run(updates.drop_last()).advanced(updates.last())
        }
    }

    /// The tracker put back to where it started, with nothing recorded.
    pub open spec fn restarted(self) -> TrackerState {
        TrackerState {
            rolling: self.initial,
            degenerate: !(self.outer_frame.finite() && self.initial.finite()),
            trace_points: Seq::empty(),
            trace_forward_vectors: Seq::empty(),
            ..self
        }
    }

    /// The tracker with its revolution rate set to `wanted`, as far as its
    /// bounds allow.
    pub open spec fn with_revolution_rate(self, wanted: Scalar) -> TrackerState {
        TrackerState {
            settings: TrackerSettings {
                revolution_rate: wanted.clamped(
                    self.settings.min_revolution_rate,
                    self.settings.max_revolution_rate,
                ),
                ..self.settings
            },
            ..self
        }
    }

    /// The first rotation of the next tick: about the outer circle's centre,
    /// by the revolution rate, of all three moving frames.
    pub open spec fn revolution(self) -> Revolution {
        Revolution {
            pivot: self.outer_frame.position,
            axis: self.settings.axis_mode.resolved(self.rolling.inner.orientation),
            angle: self.settings.revolution_rate,
            frames: self.rolling,
        }
    }

    /// The second rotation of the next tick, given the moving frames as the
    /// first left them: about the rolling circle's centre as it then is, by
    /// the angle that the gearing gives, of the arm and the traced point.
    pub open spec fn spin(self, revolved: RollingFrames) -> Spin {
        Spin {
            pivot: revolved.inner.position,
            axis: self.settings.axis_mode.resolved(revolved.inner.orientation),
            gearing: Gearing::rolling(
                self.outer_radius,
                self.inner_radius,
                self.settings.revolution_rate,
            ),
            arm: revolved.arm,
            point: revolved.point,
        }
    }

    /// The moving frames after both rotations: the rolling circle as the first
    /// left it, the arm and the traced point as the second left them.
    pub open spec fn turned(revolved: RollingFrames, spun: SpunFrames) -> RollingFrames {
        RollingFrames { inner: revolved.inner, arm: spun.arm, point: spun.point }
    }
}

/// All of `updates` are free of infinities and NaNs.
pub open spec fn all_finite(updates: Seq<TickUpdate>) -> bool {
    forall|i: int| 0 <= i < updates.len() ==> (#[trigger] updates[i]).finite()
}

/// The positions of the traced point in `updates`, in order.
pub open spec fn positions_of(updates: Seq<TickUpdate>) -> Seq<Vector3> {
    Seq::new(updates.len(), |i: int| updates[i].frames.point.position)
}

/// The directions along the arm in `updates`, in order.
pub open spec fn forwards_of(updates: Seq<TickUpdate>) -> Seq<Vector3> {
    Seq::new(updates.len(), |i: int| updates[i].forward)
}

/// The radii, the settings, the outer circle's frame and the frames that the
/// tracker started from are the same in both.
pub open spec fn same_setup(a: TrackerState, b: TrackerState) -> bool {
    &&& a.inner_radius == b.inner_radius
    &&& a.outer_radius == b.outer_radius
    &&& a.settings == b.settings
    &&& a.offsets_shown == b.offsets_shown
    &&& a.outer_frame == b.outer_frame
    &&& a.initial == b.initial
}

/// One tick keeps a tracker valid, whatever its outcome; in particular the
/// two recorded sequences stay of one length. It changes nothing of the
/// tracker's setup.
pub proof fn lemma_advanced_valid(state: TrackerState, update: TickUpdate)
    requires
        state.valid(),
    ensures
        state.advanced(update).valid(),
        state.advanced(update).paired(),
        same_setup(state.advanced(update), state),
{
    let next = state.advanced(update);
    if state.accepts(update) {
        assert forall|i: int| 0 <= i < next.trace_points.len() implies (
        #[trigger] next.trace_points[i]).finite() by {
            if i < state.trace_points.len() {
                assert(next.trace_points[i] == state.trace_points[i]);
            }
        }
        assert forall|i: int| 0 <= i < next.trace_forward_vectors.len() implies (
        #[trigger] next.trace_forward_vectors[i]).finite() by {
            if i < state.trace_forward_vectors.len() {
                assert(next.trace_forward_vectors[i] == state.trace_forward_vectors[i]);
            }
        }
    }
}

/// After any number of ticks, whatever their outcomes, the recorded positions
/// and the recorded directions are equally many, none of them holds an
/// infinity or a NaN, and the tracker's setup, the outer circle's frame with
/// it, is what it was.
pub proof fn lemma_run_valid(state: TrackerState, updates: Seq<TickUpdate>)
    requires
        state.valid(),
    ensures
        state.run(updates).valid(),
        state.run(updates).trace_points.len() == state.run(updates).trace_forward_vectors.len(),
        same_setup(state.run(updates), state),
    decreases updates.len(),
{
    if updates.len() > 0 {
        lemma_run_valid(state, updates.drop_last());
        lemma_advanced_valid(state.run(updates.drop_last()), updates.last());
    }
}

/// A tracker that has not stopped and is given outcomes free of infinities
/// and NaNs records exactly those: its path grows by the traced point's
/// positions, in order, one per tick, and nothing else of it changes but the
/// moving frames, which are those of the last outcome.
pub proof fn lemma_run_records(state: TrackerState, updates: Seq<TickUpdate>)
    requires
        !state.degenerate,
        all_finite(updates),
    ensures
        !state.run(updates).degenerate,
        state.run(updates).trace_points == state.trace_points + positions_of(updates),
        state.run(updates).trace_forward_vectors == state.trace_forward_vectors + forwards_of(
            updates,
        ),
        state.run(updates).trace_points.len() == state.trace_points.len() + updates.len(),
        updates.len() > 0 ==> state.run(updates).rolling == updates.last().frames,
        updates.len() == 0 ==> state.run(updates) == state,
    decreases updates.len(),
{
    if updates.len() > 0 {
        let front = updates.drop_last();
        assert forall|i: int| 0 <= i < front.len() implies (#[trigger] front[i]).finite() by {
            assert(front[i] == updates[i]);
        }
        lemma_run_records(state, front);
        assert(updates.last().finite());
        assert(positions_of(updates) =~= positions_of(front).push(
            updates.last().frames.point.position,
        ));
        assert(forwards_of(updates) =~= forwards_of(front).push(updates.last().forward));
        assert(state.run(updates).trace_points =~= state.trace_points + positions_of(updates));
        assert(state.run(updates).trace_forward_vectors =~= state.trace_forward_vectors
            + forwards_of(updates));
    } else {
        assert(state.run(updates).trace_points =~= state.trace_points + positions_of(updates));
        assert(state.run(updates).trace_forward_vectors =~= state.trace_forward_vectors
            + forwards_of(updates));
    }
}

/// `frames` are the moving frames as `place` places them: the rolling circle
/// `R - r` from the pose, the arm `R - r / 2`, the traced point `R`.
pub open spec fn placed_by<P: Fn(Placement) -> GeometricFrame>(
    place: P,
    inner_radius: Scalar,
    outer_radius: Scalar,
    starting_pose: GeometricFrame,
    frames: RollingFrames,
) -> bool {
    &&& call_ensures(
        place,
        (inner_placement(starting_pose, inner_radius, outer_radius),),
        frames.inner,
    )
    &&& call_ensures(place, (arm_placement(starting_pose, inner_radius, outer_radius),), frames.arm)
    &&& call_ensures(
        place,
        (point_placement(starting_pose, inner_radius, outer_radius),),
        frames.point,
    )
}

/// `state` is a tracker as [`KinematicTracker::new`] builds it from these
/// values, the moving frames placed by `place`.
pub open spec fn built<P: Fn(Placement) -> GeometricFrame>(
    place: P,
    inner_radius: Scalar,
    outer_radius: Scalar,
    starting_pose: GeometricFrame,
    settings: TrackerSettings,
    state: TrackerState,
) -> bool {
    exists|frames: RollingFrames|
        #[trigger] placed_by(place, inner_radius, outer_radius, starting_pose, frames)
            && state == TrackerState::fresh(
            inner_radius,
            outer_radius,
            starting_pose,
            frames,
            settings,
        )
}

/// `revolved`, `spun` and `update` are what the three steps of a tick make of
/// `before`: `revolve` turned the three moving frames about the outer
/// circle's centre, `spin` turned the arm and the traced point about the
/// centre that `revolve` returned for the rolling circle, and `settle`
/// renormalised the rolling circle as `revolve` left it and the arm and the
/// point as `spin` left them.
pub open spec fn tick_steps<R, S, T>(
    revolve: R,
    spin: S,
    settle: T,
    before: TrackerState,
    revolved: RollingFrames,
    spun: SpunFrames,
    update: TickUpdate,
) -> bool where
    R: Fn(Revolution) -> RollingFrames,
    S: Fn(Spin) -> SpunFrames,
    T: Fn(RollingFrames) -> TickUpdate,
{
    &&& call_ensures(revolve, (before.revolution(),), revolved)
    &&& call_ensures(spin, (before.spin(revolved),), spun)
    &&& call_ensures(settle, (TrackerState::turned(revolved, spun),), update)
}

/// `after` is `before` one tick later, the arithmetic done by `revolve`,
/// `spin` and `settle`. A tracker that has stopped stays as it is. Otherwise
/// the three steps were taken and their outcome was taken in.
pub open spec fn ticked<R, S, T>(
    revolve: R,
    spin: S,
    settle: T,
    before: TrackerState,
    after: TrackerState,
) -> bool where
    R: Fn(Revolution) -> RollingFrames,
    S: Fn(Spin) -> SpunFrames,
    T: Fn(RollingFrames) -> TickUpdate,
{
    if before.degenerate {
        after == before
    } else {
        exists|revolved: RollingFrames, spun: SpunFrames, update: TickUpdate|
            #[trigger] tick_steps(revolve, spin, settle, before, revolved, spun, update)
                && after == before.advanced(update)
    }
}

/// `after` is `before` `count` ticks later.
pub open spec fn ticked_times<R, S, T>(
    revolve: R,
    spin: S,
    settle: T,
    before: TrackerState,
    after: TrackerState,
    count: nat,
) -> bool where
    R: Fn(Revolution) -> RollingFrames,
    S: Fn(Spin) -> SpunFrames,
    T: Fn(RollingFrames) -> TickUpdate,

    decreases count,
{
    if count == 0 {
        after == before
    } else {
        exists|middle: TrackerState|
            ticked_times(revolve, spin, settle, before, middle, (count - 1) as nat)
                && #[trigger] ticked(revolve, spin, settle, middle, after)
    }
}

/// A tick keeps a tracker valid, whatever the arithmetic returns: the two
/// recorded sequences stay of one length, nothing recorded holds an infinity
/// or a NaN, the setup stays what it is, the outer circle's frame with it,
/// and what was recorded before is still there, at the front.
pub proof fn lemma_ticked_valid<R, S, T>(
    revolve: R,
    spin: S,
    settle: T,
    before: TrackerState,
    after: TrackerState,
) where
    R: Fn(Revolution) -> RollingFrames,
    S: Fn(Spin) -> SpunFrames,
    T: Fn(RollingFrames) -> TickUpdate,

    requires
        before.valid(),
        ticked(revolve, spin, settle, before, after),
    ensures
        after.valid(),
        after.trace_points.len() == after.trace_forward_vectors.len(),
        same_setup(after, before),
        before.trace_points.len() <= after.trace_points.len() <= before.trace_points.len() + 1,
        after.trace_points.subrange(0, before.trace_points.len() as int) == before.trace_points,
{
    if !before.degenerate {
        let (revolved, spun, update) = choose|
            revolved: RollingFrames,
            spun: SpunFrames,
            update: TickUpdate,
        |
            #[trigger] tick_steps(revolve, spin, settle, before, revolved, spun, update)
                && after == before.advanced(update);
        lemma_advanced_valid(before, update);
    }
    assert(after.trace_points.subrange(0, before.trace_points.len() as int)
        =~= before.trace_points);
}

/// After any number of ticks, whatever the arithmetic returned, the recorded
/// positions and the recorded directions are equally many, none of them holds
/// an infinity or a NaN, there are at most as many more as there were ticks
/// (exactly as many if the tracker has not stopped), what was recorded before
/// is still at the front, and the setup is what it was: every tick turned
/// about the same outer centre, by the same rate and with the same gearing.
pub proof fn lemma_ticked_times_valid<R, S, T>(
    revolve: R,
    spin: S,
    settle: T,
    before: TrackerState,
    after: TrackerState,
    count: nat,
) where
    R: Fn(Revolution) -> RollingFrames,
    S: Fn(Spin) -> SpunFrames,
    T: Fn(RollingFrames) -> TickUpdate,

    requires
        before.valid(),
        ticked_times(revolve, spin, settle, before, after, count),
    ensures
        after.valid(),
        after.trace_points.len() == after.trace_forward_vectors.len(),
        same_setup(after, before),
        before.trace_points.len() <= after.trace_points.len() <= before.trace_points.len() + count,
        after.trace_points.subrange(0, before.trace_points.len() as int) == before.trace_points,
        !after.degenerate ==> after.trace_points.len() == before.trace_points.len() + count,
    decreases count,
{
    if count == 0 {
        assert(after.trace_points.subrange(0, before.trace_points.len() as int)
            =~= before.trace_points);
    } else {
        let middle = choose|middle: TrackerState|
            ticked_times(revolve, spin, settle, before, middle, (count - 1) as nat)
                && #[trigger] ticked(revolve, spin, settle, middle, after);
        lemma_ticked_times_valid(revolve, spin, settle, before, middle, (count - 1) as nat);
        lemma_ticked_valid(revolve, spin, settle, middle, after);
        assert(after.trace_points.subrange(0, before.trace_points.len() as int)
            =~= before.trace_points) by {
            assert(middle.trace_points.subrange(0, before.trace_points.len() as int)
                == before.trace_points);
            assert(after.trace_points.subrange(0, middle.trace_points.len() as int)
                == middle.trace_points);
            assert forall|i: int| 0 <= i < before.trace_points.len() implies after.trace_points[i]
                == before.trace_points[i] by {
                assert(middle.trace_points.subrange(0, before.trace_points.len() as int)[i]
                    == middle.trace_points[i]);
                assert(after.trace_points.subrange(0, middle.trace_points.len() as int)[i]
                    == after.trace_points[i]);
            }
        }
        if !after.degenerate && !middle.degenerate {
            // the last tick was taken in, so it recorded one sample
            let (revolved, spun, update) = choose|
                revolved: RollingFrames,
                spun: SpunFrames,
                update: TickUpdate,
            |
                #[trigger] tick_steps(revolve, spin, settle, middle, revolved, spun, update)
                    && after == middle.advanced(update);
            assert(after.trace_points.len() == middle.trace_points.len() + 1);
        }
    }
}

/// Where the arithmetic has one outcome for each input, so has a tick: one
/// tracker cannot become two different trackers.
pub proof fn lemma_tick_is_deterministic<R, S, T>(
    revolve: R,
    spin: S,
    settle: T,
    before: TrackerState,
    first: TrackerState,
    second: TrackerState,
) where
    R: Fn(Revolution) -> RollingFrames,
    S: Fn(Spin) -> SpunFrames,
    T: Fn(RollingFrames) -> TickUpdate,

    requires
        single_valued(revolve),
        single_valued(spin),
        single_valued(settle),
        ticked(revolve, spin, settle, before, first),
        ticked(revolve, spin, settle, before, second),
    ensures
        first == second,
{
    if !before.degenerate {
        let (revolved1, spun1, update1) = choose|
            revolved: RollingFrames,
            spun: SpunFrames,
            update: TickUpdate,
        |
            #[trigger] tick_steps(revolve, spin, settle, before, revolved, spun, update)
                && first == before.advanced(update);
        let (revolved2, spun2, update2) = choose|
            revolved: RollingFrames,
            spun: SpunFrames,
            update: TickUpdate,
        |
            #[trigger] tick_steps(revolve, spin, settle, before, revolved, spun, update)
                && second == before.advanced(update);
        assert(revolved1 == revolved2);
        assert(spun1 == spun2);
        assert(update1 == update2);
    }
}

/// Two runs from the same tracker over the same number of ticks end in the
/// same tracker, where the arithmetic has one outcome for each input.
pub proof fn lemma_ticks_are_deterministic<R, S, T>(
    revolve: R,
    spin: S,
    settle: T,
    before: TrackerState,
    first: TrackerState,
    second: TrackerState,
    count: nat,
) where
    R: Fn(Revolution) -> RollingFrames,
    S: Fn(Spin) -> SpunFrames,
    T: Fn(RollingFrames) -> TickUpdate,

    requires
        single_valued(revolve),
        single_valued(spin),
        single_valued(settle),
        ticked_times(revolve, spin, settle, before, first, count),
        ticked_times(revolve, spin, settle, before, second, count),
    ensures
        first == second,
    decreases count,
{
    if count > 0 {
        let middle1 = choose|middle: TrackerState|
            ticked_times(revolve, spin, settle, before, middle, (count - 1) as nat)
                && #[trigger] ticked(revolve, spin, settle, middle, first);
        let middle2 = choose|middle: TrackerState|
            ticked_times(revolve, spin, settle, before, middle, (count - 1) as nat)
                && #[trigger] ticked(revolve, spin, settle, middle, second);
        lemma_ticks_are_deterministic(
            revolve,
            spin,
            settle,
            before,
            middle1,
            middle2,
            (count - 1) as nat,
        );
        lemma_tick_is_deterministic(revolve, spin, settle, middle1, first, second);
    }
}

/// Two independent runs agree. Two trackers built from the same radii, the
/// same starting pose and the same settings, and taken through the same
/// number of ticks, are the same afterwards, and so are the paths that they
/// recorded, where the arithmetic has one outcome for each input.
pub proof fn lemma_runs_are_deterministic<P, R, S, T>(
    place: P,
    revolve: R,
    spin: S,
    settle: T,
    inner_radius: Scalar,
    outer_radius: Scalar,
    starting_pose: GeometricFrame,
    settings: TrackerSettings,
    count: nat,
    first_built: TrackerState,
    first: TrackerState,
    second_built: TrackerState,
    second: TrackerState,
) where
    P: Fn(Placement) -> GeometricFrame,
    R: Fn(Revolution) -> RollingFrames,
    S: Fn(Spin) -> SpunFrames,
    T: Fn(RollingFrames) -> TickUpdate,

    requires
        single_valued(place),
        single_valued(revolve),
        single_valued(spin),
        single_valued(settle),
        built(place, inner_radius, outer_radius, starting_pose, settings, first_built),
        built(place, inner_radius, outer_radius, starting_pose, settings, second_built),
        ticked_times(revolve, spin, settle, first_built, first, count),
        ticked_times(revolve, spin, settle, second_built, second, count),
    ensures
        first_built == second_built,
        first == second,
        first.trace_points == second.trace_points,
{
    let frames1 = choose|frames: RollingFrames|
        #[trigger] placed_by(place, inner_radius, outer_radius, starting_pose, frames)
            && first_built == TrackerState::fresh(
            inner_radius,
            outer_radius,
            starting_pose,
            frames,
            settings,
        );
    let frames2 = choose|frames: RollingFrames|
        #[trigger] placed_by(place, inner_radius, outer_radius, starting_pose, frames)
            && second_built == TrackerState::fresh(
            inner_radius,
            outer_radius,
            starting_pose,
            frames,
            settings,
        );
    assert(frames1.inner == frames2.inner);
    assert(frames1.arm == frames2.arm);
    assert(frames1.point == frames2.point);
    lemma_ticks_are_deterministic(revolve, spin, settle, first_built, first, second, count);
}

/// The two sequences that a tracker records, held together.
#[derive(Debug)]
struct TraceBuffers {
    points: Vec<Vector3>,
    forward_vectors: Vec<Vector3>,
}

/// One traced hypocycloid: the frames of its apparatus and the path so far.
#[derive(Debug)]
pub struct KinematicTracker {
    inner_radius: Scalar,
    outer_radius: Scalar,
    settings: TrackerSettings,
    offsets_shown: bool,
    outer_frame: GeometricFrame,
    initial: RollingFrames,
    rolling: RollingFrames,
    degenerate: bool,
    trace: TraceBuffers,
}

impl View for KinematicTracker {
    type V = TrackerState;

    closed spec fn view(&self) -> TrackerState {
        TrackerState {
            inner_radius: self.inner_radius,
            outer_radius: self.outer_radius,
            settings: self.settings,
            offsets_shown: self.offsets_shown,
            outer_frame: self.outer_frame,
            initial: self.initial,
            rolling: self.rolling,
            degenerate: self.degenerate,
            trace_points: self.trace.points@,
            trace_forward_vectors: self.trace.forward_vectors@,
        }
    }
}

impl KinematicTracker {
    #[verifier::type_invariant]
    spec fn well_formed(self) -> bool {
        self@.valid()
    }

    /// A tracker for a circle of `inner_radius` that rolls inside one of
    /// `outer_radius`, starting at the rim. The outer circle's frame is
    /// `starting_pose`. The moving frames are placed by `place`, which is
    /// handed each placement in turn: the rolling circle `R - r` along the
    /// pose's axis, the arm `R - r / 2`, the traced point `R`. Nothing is
    /// recorded yet, and the companion curves are shown. The revolution rate
    /// is brought into its bounds.
    ///
    /// No tracker is built, and `place` is not called, for a radius that is
    /// zero or negative, nor for two equal radii. A tracker whose frames hold
    /// an infinity or a NaN is built stopped.
    pub fn new<P: Fn(Placement) -> GeometricFrame>(
        inner_radius: Scalar,
        outer_radius: Scalar,
        starting_pose: GeometricFrame,
        settings: TrackerSettings,
        place: P,
    ) -> (r: Result<KinematicTracker, TrackerError>)
        requires
            forall|placement: Placement| call_requires(place, (placement,)),
        ensures
            r is Ok <==> radii_valid(inner_radius, outer_radius),
            r is Err ==> r.unwrap_err() == TrackerError::InvalidConfiguration,
            r is Ok ==> built(
                place,
                inner_radius,
                outer_radius,
                starting_pose,
                settings,
                r.unwrap()@,
            ),
            r is Ok ==> r.unwrap()@.valid(),
    {
        if !KinematicTracker::radii_are_valid(inner_radius, outer_radius) {
            return Err(TrackerError::InvalidConfiguration);
        }
        let inner = place(
            Placement {
                pose: starting_pose,
                outer_radius,
                inner_radius,
                inner_share: Scalar::one_value(),
            },
        );
        let arm = place(
            Placement {
                pose: starting_pose,
                outer_radius,
                inner_radius,
                inner_share: Scalar::half_value(),
            },
        );
        let point = place(
            Placement {
                pose: starting_pose,
                outer_radius,
                inner_radius,
                inner_share: Scalar::zero_value(),
            },
        );
        let r = KinematicTracker::with_frames(
            inner_radius,
            outer_radius,
            starting_pose,
            RollingFrames { inner, arm, point },
            settings,
        );
        proof {
            assert(placed_by(
                place,
                inner_radius,
                outer_radius,
                starting_pose,
                RollingFrames { inner, arm, point },
            ));
        }
        r
    }

    /// The radii describe two circles, one of which can roll in the other.
    pub fn radii_are_valid(inner_radius: Scalar, outer_radius: Scalar) -> (b: bool)
        ensures
            b == radii_valid(inner_radius, outer_radius),
    {
        let zero: Scalar = Scalar::zero_value();
        !inner_radius.le(&zero) && !outer_radius.le(&zero) && !inner_radius.eq_value(&outer_radius)
    }

    /// A tracker whose moving frames stand where `placed` says. Nothing is
    /// recorded yet, and the companion curves are shown. The revolution rate
    /// is brought into its bounds.
    ///
    /// No tracker is built for a radius that is zero or negative, nor for two
    /// equal radii. A tracker whose frames hold an infinity or a NaN is built
    /// stopped.
    pub fn with_frames(
        inner_radius: Scalar,
        outer_radius: Scalar,
        starting_pose: GeometricFrame,
        placed: RollingFrames,
        settings: TrackerSettings,
    ) -> (r: Result<KinematicTracker, TrackerError>)
        ensures
            r is Ok <==> radii_valid(inner_radius, outer_radius),
            r is Err ==> r.unwrap_err() == TrackerError::InvalidConfiguration,
            r is Ok ==> r.unwrap()@ == TrackerState::fresh(
                inner_radius,
                outer_radius,
                starting_pose,
                placed,
                settings,
            ),
            r is Ok ==> r.unwrap()@.valid(),
    {
        if !KinematicTracker::radii_are_valid(inner_radius, outer_radius) {
            return Err(TrackerError::InvalidConfiguration);
        }
        let rate: Scalar = settings.revolution_rate.clamp(
            settings.min_revolution_rate,
            settings.max_revolution_rate,
        );
        let held = TrackerSettings {
            revolution_rate: rate,
            min_revolution_rate: settings.min_revolution_rate,
            max_revolution_rate: settings.max_revolution_rate,
            axis_mode: settings.axis_mode,
            inferior_radius: settings.inferior_radius,
            superior_radius: settings.superior_radius,
        };
        let degenerate: bool = !(starting_pose.is_finite() && placed.is_finite());
        Ok(
            KinematicTracker {
                inner_radius,
                outer_radius,
                settings: held,
                offsets_shown: true,
                outer_frame: starting_pose,
                initial: placed,
                rolling: placed,
                degenerate,
                trace: TraceBuffers { points: Vec::new(), forward_vectors: Vec::new() },
            },
        )
    }

    /// The first rotation of the next tick: about the outer circle's centre,
    /// by the revolution rate, of all three moving frames.
    pub fn revolution(&self) -> (request: Revolution)
        ensures
            request == self@.revolution(),
            request.pivot == self@.outer_frame.position,
            request.angle == self@.settings.revolution_rate,
            request.frames == self@.rolling,
    {
        Revolution {
            pivot: self.outer_frame.position,
            axis: self.settings.axis_mode.resolve(self.rolling.inner.orientation),
            angle: self.settings.revolution_rate,
            frames: self.rolling,
        }
    }

    /// The second rotation of the next tick, given the moving frames as the
    /// first left them: about the rolling circle's centre as it now is, by
    /// the angle that the gearing gives, of the arm and the traced point only.
    pub fn spin(&self, revolved: RollingFrames) -> (request: Spin)
        ensures
            request == self@.spin(revolved),
            request.pivot == revolved.inner.position,
            request.axis == self@.settings.axis_mode.resolved(revolved.inner.orientation),
            request.gearing.outer_radius() == self@.outer_radius,
            request.gearing.inner_radius() == self@.inner_radius,
            request.gearing.revolution_rate() == self@.settings.revolution_rate,
            !request.gearing.inner_radius().zero(),
            request.arm == revolved.arm,
            request.point == revolved.point,
    {
        proof {
            use_type_invariant(self);
        }
        let gearing = Gearing::of_rolling(
            self.outer_radius,
            self.inner_radius,
            self.settings.revolution_rate,
        );
        Spin {
            pivot: revolved.inner.position,
            axis: self.settings.axis_mode.resolve(revolved.inner.orientation),
            gearing,
            arm: revolved.arm,
            point: revolved.point,
        }
    }

    /// One tick, with the arithmetic done by the three functions given.
    ///
    /// `revolve` is handed the first rotation and returns the three moving
    /// frames turned by it. `spin` is handed the second rotation, which is
    /// about the centre that `revolve` returned for the rolling circle, and
    /// returns the arm and the traced point turned by it. `settle` is handed
    /// the rolling circle as `revolve` left it together with the arm and the
    /// point as `spin` left them, and returns them with their orientations
    /// renormalised, and the direction along the arm. That outcome is taken in
    /// as [`KinematicTracker::advance`] takes it in.
    ///
    /// A tracker that has stopped calls none of the three.
    pub fn tick<R, S, T>(&mut self, revolve: R, spin: S, settle: T) -> (r: Result<
        (),
        TrackerError,
    >) where
        R: Fn(Revolution) -> RollingFrames,
        S: Fn(Spin) -> SpunFrames,
        T: Fn(RollingFrames) -> TickUpdate,

        requires
            forall|request: Revolution| call_requires(revolve, (request,)),
            forall|request: Spin| call_requires(spin, (request,)),
            forall|frames: RollingFrames| call_requires(settle, (frames,)),
        ensures
            ticked(revolve, spin, settle, old(self)@, final(self)@),
            r is Ok <==> !final(self)@.degenerate,
            r is Ok ==> final(self)@.trace_points.len() == old(self)@.trace_points.len() + 1,
            r is Err ==> final(self)@.trace_points == old(self)@.trace_points,
            r is Err ==> r.unwrap_err() == TrackerError::DegenerateState,
            final(self)@.valid(),
            final(self)@.trace_points.len() == final(self)@.trace_forward_vectors.len(),
            final(self)@.outer_frame == old(self)@.outer_frame,
    {
        proof {
            use_type_invariant(&*self);
        }
        if self.degenerate {
            return Err(TrackerError::DegenerateState);
        }
        let ghost before = self@;
        let revolved = revolve(self.revolution());
        let spun = spin(self.spin(revolved));
        let update = settle(
            RollingFrames { inner: revolved.inner, arm: spun.arm, point: spun.point },
        );
        let r = self.advance(update);
        proof {
            assert(tick_steps(revolve, spin, settle, before, revolved, spun, update));
        }
        r
    }

    /// Up to `ticks` ticks, one after the other, with the arithmetic done by
    /// the three functions given (see [`KinematicTracker::tick`]). The ticks
    /// end early when the tracker stops, or has stopped. Returns the number of
    /// ticks that were recorded.
    pub fn run_ticks<R, S, T>(&mut self, ticks: u64, revolve: &R, spin: &S, settle: &T) -> (done:
        u64) where
        R: Fn(Revolution) -> RollingFrames,
        S: Fn(Spin) -> SpunFrames,
        T: Fn(RollingFrames) -> TickUpdate,

        requires
            forall|request: Revolution| call_requires(*revolve, (request,)),
            forall|request: Spin| call_requires(*spin, (request,)),
            forall|frames: RollingFrames| call_requires(*settle, (frames,)),
        ensures
            done <= ticks,
            done < ticks ==> final(self)@.degenerate,
            old(self)@.degenerate ==> done == 0 && final(self)@ == old(self)@,
            ticked_times(
                *revolve,
                *spin,
                *settle,
                old(self)@,
                final(self)@,
                if final(self)@.degenerate && !old(self)@.degenerate {
                    (done + 1) as nat
                } else {
                    done as nat
                },
            ),
            final(self)@.trace_points.len() == old(self)@.trace_points.len() + done,
            final(self)@.trace_points.subrange(0, old(self)@.trace_points.len() as int) == old(
                self,
            )@.trace_points,
            final(self)@.trace_forward_vectors.len() == final(self)@.trace_points.len(),
            final(self)@.valid(),
            final(self)@.outer_frame == old(self)@.outer_frame,
    {
        proof {
            use_type_invariant(&*self);
        }
        let ghost before = self@;
        let ghost mut calls: nat = 0;
        let mut done: u64 = 0;
        let mut running: bool = !self.degenerate;
        while done < ticks && running
            invariant
                forall|request: Revolution| call_requires(*revolve, (request,)),
                forall|request: Spin| call_requires(*spin, (request,)),
                forall|frames: RollingFrames| call_requires(*settle, (frames,)),
                done <= ticks,
                ticked_times(*revolve, *spin, *settle, before, self@, calls),
                calls == if self@.degenerate && !before.degenerate {
                    (done + 1) as nat
                } else {
                    done as nat
                },
                before.degenerate ==> !running && done == 0 && self@ == before,
                running ==> !self@.degenerate,
                !running ==> self@.degenerate,
                self@.valid(),
                self@.outer_frame == before.outer_frame,
                self@.trace_points.len() == before.trace_points.len() + done,
                self@.trace_points.subrange(0, before.trace_points.len() as int)
                    == before.trace_points,
            decreases ticks - done, running as int,
        {
            let ghost prior = self@;
            let r = self.tick(revolve, spin, settle);
            proof {
                let (revolved, spun, update) = choose|
                    revolved: RollingFrames,
                    spun: SpunFrames,
                    update: TickUpdate,
                |
                    #[trigger] tick_steps(revolve, spin, settle, prior, revolved, spun, update)
                        && self@ == prior.advanced(update);
                assert(tick_steps(*revolve, *spin, *settle, prior, revolved, spun, update));
                assert(ticked(*revolve, *spin, *settle, prior, self@));
                calls = calls + 1;
                assert(ticked_times(*revolve, *spin, *settle, before, prior, (calls - 1) as nat));
                assert(self@.trace_points.subrange(0, before.trace_points.len() as int)
                    =~= before.trace_points);
            }
            match r {
                Ok(_) => {
                    done = done + 1;
                },
                Err(_) => {
                    running = false;
                },
            }
        }
        done
    }

    /// Takes in the outcome of one tick. If the tracker has not stopped and
    /// the outcome is free of infinities and NaNs, the moving frames become
    /// those of the outcome, the traced point's position is appended to the
    /// path and the direction along the arm to the directions. Otherwise the
    /// tracker stops, or stays stopped, and nothing else of it changes.
    pub fn advance(&mut self, update: TickUpdate) -> (r: Result<(), TrackerError>)
        ensures
            r is Ok <==> old(self)@.accepts(update),
            r is Err ==> r.unwrap_err() == TrackerError::DegenerateState,
            final(self)@ == old(self)@.advanced(update),
            final(self)@.valid(),
            final(self)@.trace_points.len() == final(self)@.trace_forward_vectors.len(),
            final(self)@.outer_frame == old(self)@.outer_frame,
    {
        proof {
            use_type_invariant(&*self);
            lemma_advanced_valid(self@, update);
        }
        if self.degenerate || !update.is_finite() {
            self.degenerate = true;
            return Err(TrackerError::DegenerateState);
        }
        let mut trace = TraceBuffers { points: Vec::new(), forward_vectors: Vec::new() };
        std::mem::swap(&mut trace, &mut self.trace);
        trace.points.push(update.frames.point.position);
        trace.forward_vectors.push(update.forward);
        self.trace = trace;
        self.rolling = update.frames;
        Ok(())
    }

    /// Puts the moving frames back to where they started and forgets the
    /// path. A tracker that had stopped runs again, unless the frames it
    /// started from hold an infinity or a NaN.
    pub fn reset(&mut self)
        ensures
            final(self)@ == old(self)@.restarted(),
            final(self)@.valid(),
            final(self)@.trace_points.len() == 0,
            final(self)@.trace_forward_vectors.len() == 0,
    {
        proof {
            use_type_invariant(&*self);
        }
        let degenerate: bool = !(self.outer_frame.is_finite() && self.initial.is_finite());
        self.degenerate = true;
        self.trace = TraceBuffers { points: Vec::new(), forward_vectors: Vec::new() };
        self.rolling = self.initial;
        self.degenerate = degenerate;
    }

    /// Sets the revolution rate to `wanted`, or to the bound that `wanted`
    /// lies beyond.
    pub fn set_revolution_rate(&mut self, wanted: Scalar)
        ensures
            final(self)@ == old(self)@.with_revolution_rate(wanted),
            final(self)@.valid(),
    {
        proof {
            use_type_invariant(&*self);
        }
        let rate: Scalar = wanted.clamp(
            self.settings.min_revolution_rate,
            self.settings.max_revolution_rate,
        );
        self.settings.revolution_rate = rate;
    }

    /// Shows the companion curves if they were hidden, hides them if they
    /// were shown.
    pub fn toggle_offsets(&mut self)
        ensures
            final(self)@ == (TrackerState {
                offsets_shown: !old(self)@.offsets_shown,
                ..old(self)@
            }),
            final(self)@.valid(),
    {
        proof {
            use_type_invariant(&*self);
        }
        self.offsets_shown = !self.offsets_shown;
    }

    pub fn offsets_shown(&self) -> (shown: bool)
        ensures
            shown == self@.offsets_shown,
    {
        self.offsets_shown
    }

    /// The tracker has stopped.
    pub fn is_degenerate(&self) -> (stopped: bool)
        ensures
            stopped == self@.degenerate,
            !stopped ==> self@.outer_frame.finite() && self@.rolling.finite(),
    {
        proof {
            use_type_invariant(self);
        }
        self.degenerate
    }

    pub fn inner_radius(&self) -> (radius: Scalar)
        ensures
            radius == self@.inner_radius,
    {
        self.inner_radius
    }

    pub fn outer_radius(&self) -> (radius: Scalar)
        ensures
            radius == self@.outer_radius,
    {
        self.outer_radius
    }

    pub fn inferior_radius(&self) -> (radius: Scalar)
        ensures
            radius == self@.settings.inferior_radius,
    {
        self.settings.inferior_radius
    }

    pub fn superior_radius(&self) -> (radius: Scalar)
        ensures
            radius == self@.settings.superior_radius,
    {
        self.settings.superior_radius
    }

    pub fn revolution_rate(&self) -> (rate: Scalar)
        ensures
            rate == self@.settings.revolution_rate,
    {
        self.settings.revolution_rate
    }

    pub fn axis_mode(&self) -> (mode: AxisMode)
        ensures
            mode == self@.settings.axis_mode,
    {
        self.settings.axis_mode
    }

    pub fn outer_frame(&self) -> (frame: GeometricFrame)
        ensures
            frame == self@.outer_frame,
    {
        self.outer_frame
    }

    pub fn inner_frame(&self) -> (frame: GeometricFrame)
        ensures
            frame == self@.rolling.inner,
    {
        self.rolling.inner
    }

    pub fn arm_frame(&self) -> (frame: GeometricFrame)
        ensures
            frame == self@.rolling.arm,
    {
        self.rolling.arm
    }

    pub fn point_frame(&self) -> (frame: GeometricFrame)
        ensures
            frame == self@.rolling.point,
    {
        self.rolling.point
    }

    /// The number of ticks recorded.
    pub fn len(&self) -> (n: usize)
        ensures
            n == self@.trace_points.len(),
            n == self@.trace_forward_vectors.len(),
    {
        proof {
            use_type_invariant(self);
        }
        self.trace.points.len()
    }

    /// Where the traced point was after each tick, oldest first.
    pub fn trace_points(&self) -> (points: &Vec<Vector3>)
        ensures
            points@ == self@.trace_points,
            points@.len() == self@.trace_forward_vectors.len(),
            forall|i: int| 0 <= i < points@.len() ==> (#[trigger] points@[i]).finite(),
    {
        proof {
            use_type_invariant(self);
        }
        &self.trace.points
    }

    /// The direction along the arm after each tick, oldest first.
    pub fn trace_forward_vectors(&self) -> (directions: &Vec<Vector3>)
        ensures
            directions@ == self@.trace_forward_vectors,
            directions@.len() == self@.trace_points.len(),
            forall|i: int| 0 <= i < directions@.len() ==> (#[trigger] directions@[i]).finite(),
    {
        proof {
            use_type_invariant(self);
        }
        &self.trace.forward_vectors
    }
}

} // verus!
