use vstd::prelude::*;

use crate::timing::SimulationTiming;

verus! {

/// Stable identifier of the JSONL trajectory format.
pub const TELEMETRY_FORMAT: &'static str = "apollo-telemetry-jsonl";

/// Current version of the JSONL trajectory format.
pub const TELEMETRY_FORMAT_VERSION: u32 = 1;

/// Model identifier that the Apollo viewer supports.
pub const APOLLO_TELEMETRY_MODEL: &'static str = "apollo_lander";

/// Snapshot of a plant at a definite tick.
#[derive(Clone, Copy, Debug, PartialEq)]
pub struct PlantSnapshot<S> {
    /// Physical state.
    pub state: S,
    /// External control steps completed since the last reset.
    pub control_tick: u64,
    /// Physics substeps completed since the last reset.
    pub physics_tick: u64,
}

impl<S> PlantSnapshot<S> {
    /// The tick-zero snapshot of an explicit state.
    pub fn initial(state: S) -> (snapshot: Self)
        ensures
            snapshot.state == state,
            snapshot.control_tick == 0,
            snapshot.physics_tick == 0,
    {
        PlantSnapshot { state, control_tick: 0, physics_tick: 0 }
    }

    /// Simulation time in nanoseconds, derived from `physics_tick`.
    pub fn sim_time_ns(&self, timing: SimulationTiming) -> (ns: u128)
        ensures
            ns == timing.step_ns() * self.physics_tick,
    {
        timing.sim_time_ns(self.physics_tick)
    }
}

/// Ticks after one more control step: the control tick grows by one and the physics tick by
/// one control period of substeps; `None` when either would overflow.
pub open spec fn spec_next_ticks(control_tick: u64, physics_tick: u64, timing: SimulationTiming) -> Option<(u64, u64)> {
    if control_tick + 1 <= u64::MAX && physics_tick + timing.substeps() <= u64::MAX {
        Some(((control_tick + 1) as u64, (physics_tick + timing.substeps()) as u64))
    } else {
        None
    }
}

/// Ticks of a plant after one control step; the plant checks this before it changes any
/// state, so an overflow leaves it untouched.
pub fn next_ticks(control_tick: u64, physics_tick: u64, timing: SimulationTiming) -> (r: Option<(u64, u64)>)
    ensures
        r == spec_next_ticks(control_tick, physics_tick, timing),
{
    let next_control_tick = match control_tick.checked_add(1) {
        Some(t) => t,
        None => return None,
    };
    let next_physics_tick = match physics_tick.checked_add(timing.substeps_per_control() as u64) {
        Some(t) => t,
        None => return None,
    };
    Some((next_control_tick, next_physics_tick))
}

/// First line of a JSONL trajectory.
#[derive(Clone, Debug, PartialEq)]
pub struct TrajectoryHeader<S> {
    /// Format identifier; should be `TELEMETRY_FORMAT`.
    pub format: String,
    /// Format version; should be `TELEMETRY_FORMAT_VERSION`.
    pub version: u32,
    /// Model that produced the trajectory.
    pub model: String,
    /// Fixed timing of the trajectory.
    pub timing: SimulationTiming,
    /// Snapshot at tick zero, after reset and before any action.
    pub initial_snapshot: PlantSnapshot<S>,
}

/// A trajectory header that the current reader and writer do not accept.
#[derive(Clone, Debug, PartialEq)]
pub enum TrajectoryHeaderError<E> {
    /// Unknown format identifier.
    UnsupportedFormat(String),
    /// Unknown format version.
    UnsupportedVersion(u32),
    /// Model not supported by the current reader.
    UnsupportedModel(String),
    /// The initial state holds an invalid value.
    InvalidInitialState(E),
    /// The initial snapshot is not the zero-tick state after reset.
    InitialSnapshotNotAtZero { control_tick: u64, physics_tick: u64 },
}

/// The first defect of a header, given the outcome of checking its initial state.
pub open spec fn header_problem<S, E>(header: TrajectoryHeader<S>, state_check: Result<(), E>) -> Option<TrajectoryHeaderError<E>> {
    if header.format@ != TELEMETRY_FORMAT@ {
        Some(TrajectoryHeaderError::UnsupportedFormat(header.format))
    } else if header.version != TELEMETRY_FORMAT_VERSION {
        Some(TrajectoryHeaderError::UnsupportedVersion(header.version))
    } else if header.model@ != APOLLO_TELEMETRY_MODEL@ {
        Some(TrajectoryHeaderError::UnsupportedModel(header.model))
    } else if state_check is Err {
        Some(TrajectoryHeaderError::InvalidInitialState(state_check->Err_0))
    } else if header.initial_snapshot.control_tick != 0 || header.initial_snapshot.physics_tick != 0 {
        Some(TrajectoryHeaderError::InitialSnapshotNotAtZero {
            control_tick: header.initial_snapshot.control_tick,
            physics_tick: header.initial_snapshot.physics_tick,
        })
    } else {
        None
    }
}

/// `Ok` exactly when there is no problem, else the problem.
pub open spec fn as_result<T>(problem: Option<T>) -> Result<(), T> {
    match problem {
        Some(e) => Err(e),
        None => Ok(()),
    }
}

impl<S> TrajectoryHeader<S> {
    /// A header of the current Apollo format.
    pub fn apollo(timing: SimulationTiming, initial_snapshot: PlantSnapshot<S>) -> (header: Self)
        ensures
            header.format@ == TELEMETRY_FORMAT@,
            header.version == TELEMETRY_FORMAT_VERSION,
            header.model@ == APOLLO_TELEMETRY_MODEL@,
            header.timing == timing,
            header.initial_snapshot == initial_snapshot,
    {
        TrajectoryHeader {
            format: String::from_str(TELEMETRY_FORMAT),
            version: TELEMETRY_FORMAT_VERSION,
            model: String::from_str(APOLLO_TELEMETRY_MODEL),
            timing,
            initial_snapshot,
        }
    }

    /// Refuses an unknown format, version or model, an invalid initial state (as reported by
    /// `state_check`, the outcome of checking `initial_snapshot.state`), and an initial
    /// snapshot off tick zero, in that order.
    pub fn validate<E>(&self, state_check: Result<(), E>) -> (r: Result<(), TrajectoryHeaderError<E>>)
        ensures
            r == as_result(header_problem(*self, state_check)),
    {
        if self.format != String::from_str(TELEMETRY_FORMAT) {
            return Err(TrajectoryHeaderError::UnsupportedFormat(self.format.clone()));
        }
        if self.version != TELEMETRY_FORMAT_VERSION {
            return Err(TrajectoryHeaderError::UnsupportedVersion(self.version));
        }
        if self.model != String::from_str(APOLLO_TELEMETRY_MODEL) {
            return Err(TrajectoryHeaderError::UnsupportedModel(self.model.clone()));
        }
        match state_check {
            Err(e) => {
                return Err(TrajectoryHeaderError::InvalidInitialState(e));
            },
            Ok(()) => {},
        }
        if self.initial_snapshot.control_tick != 0 || self.initial_snapshot.physics_tick != 0 {
            return Err(TrajectoryHeaderError::InitialSnapshotNotAtZero {
                control_tick: self.initial_snapshot.control_tick,
                physics_tick: self.initial_snapshot.physics_tick,
            });
        }
        Ok(())
    }
}

/// Outcomes of checking the values of a telemetry frame: its state, and its requested and
/// applied actions.
#[derive(Debug, PartialEq)]
pub struct FrameChecks<E> {
    pub state: Result<(), E>,
    pub requested_action: Result<(), E>,
    pub applied_action: Result<(), E>,
}

/// One recorded control tick.
#[derive(Clone, Copy, Debug, PartialEq)]
pub struct TelemetryFrame<S, W> {
    /// Snapshot after the action of this tick.
    pub snapshot: PlantSnapshot<S>,
    /// Action the caller requested.
    pub requested_action: W,
    /// Action the backend applied.
    pub applied_action: W,
}

/// A telemetry frame that breaks the persistent format.
#[derive(Clone, Copy, Debug, PartialEq)]
pub enum TelemetryFrameError<E> {
    InvalidState(E),
    InvalidRequestedAction(E),
    InvalidAppliedAction(E),
    TickOverflow { control_tick: u64 },
    MisalignedPhysicsTick { control_tick: u64, physics_tick: u64, expected_physics_tick: u64 },
}

/// The first defect of a frame at the given ticks, given the outcomes of checking its values.
pub open spec fn frame_problem<E>(
    control_tick: u64,
    physics_tick: u64,
    timing: SimulationTiming,
    checks: FrameChecks<E>,
) -> Option<TelemetryFrameError<E>> {
    if checks.state is Err {
        Some(TelemetryFrameError::InvalidState(checks.state->Err_0))
    } else if checks.requested_action is Err {
        Some(TelemetryFrameError::InvalidRequestedAction(checks.requested_action->Err_0))
    } else if checks.applied_action is Err {
        Some(TelemetryFrameError::InvalidAppliedAction(checks.applied_action->Err_0))
    } else if control_tick * timing.substeps() > u64::MAX {
        Some(TelemetryFrameError::TickOverflow { control_tick })
    } else if physics_tick != control_tick * timing.substeps() {
        Some(TelemetryFrameError::MisalignedPhysicsTick {
            control_tick,
            physics_tick,
            expected_physics_tick: (control_tick * timing.substeps()) as u64,
        })
    } else {
        None
    }
}

impl<S, W> TelemetryFrame<S, W> {
    /// Checks the values (through `checks`, the outcomes of checking the state and both
    /// actions) and that the physics tick is exactly the control tick times the substeps of
    /// `timing`.
    pub fn validate<E>(&self, timing: SimulationTiming, checks: FrameChecks<E>) -> (r: Result<(), TelemetryFrameError<E>>)
        ensures
            r == as_result(frame_problem(self.snapshot.control_tick, self.snapshot.physics_tick, timing, checks)),
    {
        match checks.state {
            Err(e) => return Err(TelemetryFrameError::InvalidState(e)),
            Ok(()) => {},
        }
        match checks.requested_action {
            Err(e) => return Err(TelemetryFrameError::InvalidRequestedAction(e)),
            Ok(()) => {},
        }
        match checks.applied_action {
            Err(e) => return Err(TelemetryFrameError::InvalidAppliedAction(e)),
            Ok(()) => {},
        }
        let control_tick = self.snapshot.control_tick;
        let expected_physics_tick = match timing.physics_ticks_for_control_ticks(control_tick) {
            Some(t) => t,
            None => return Err(TelemetryFrameError::TickOverflow { control_tick }),
        };
        if self.snapshot.physics_tick != expected_physics_tick {
            return Err(TelemetryFrameError::MisalignedPhysicsTick {
                control_tick,
                physics_tick: self.snapshot.physics_tick,
                expected_physics_tick,
            });
        }
        Ok(())
    }
}

/// A trajectory that the writer refuses.
#[derive(Clone, Debug, PartialEq)]
pub enum TrajectoryWriteError<E> {
    /// The header format, version, model or initial snapshot is not accepted.
    Header(TrajectoryHeaderError<E>),
    /// The frame holds invalid values or does not match the header timing.
    InvalidFrame(TelemetryFrameError<E>),
    /// The control tick did not strictly increase.
    NonMonotonicControlTick { previous: u64, current: u64 },
}

/// Why a frame at `control_tick` cannot follow a trajectory whose last recorded control tick
/// is `last_control_tick`.
pub open spec fn admission_problem<E>(
    last_control_tick: Option<u64>,
    timing: SimulationTiming,
    control_tick: u64,
    physics_tick: u64,
    checks: FrameChecks<E>,
) -> Option<TrajectoryWriteError<E>> {
    match frame_problem(control_tick, physics_tick, timing, checks) {
        Some(e) => Some(TrajectoryWriteError::InvalidFrame(e)),
        None => match last_control_tick {
            Some(previous) => if control_tick <= previous {
                Some(TrajectoryWriteError::NonMonotonicControlTick { previous, current: control_tick })
            } else {
                None
            },
            None => None,
        },
    }
}

/// Explicit JSONL trajectory recorder: it holds only the output stream and the tick of the
/// last recorded line, never a plant or a run loop.
///
/// Serialising a line and writing it to the stream is the caller's part: it asks
/// `check_frame` whether a frame may be written, writes the line, and then calls
/// `commit_frame`.
pub struct JsonlTrajectoryWriter<W> {
    writer: W,
    timing: SimulationTiming,
    last_control_tick: Option<u64>,
}

impl<W> JsonlTrajectoryWriter<W> {
    /// The output stream.
    pub closed spec fn stream(&self) -> W {
        self.writer
    }

    /// The timing of the header this writer was opened with.
    pub closed spec fn trajectory_timing(&self) -> SimulationTiming {
        self.timing
    }

    /// Control tick of the last recorded line (the header's initial snapshot at first).
    pub closed spec fn last_tick(&self) -> Option<u64> {
        self.last_control_tick
    }

    /// Opens a writer after validating `header` (with `initial_state_check`, the outcome of
    /// checking its initial state); the caller writes the header line next.
    pub fn new<S, E>(
        writer: W,
        header: &TrajectoryHeader<S>,
        initial_state_check: Result<(), E>,
    ) -> (r: Result<Self, TrajectoryWriteError<E>>)
        ensures
            r is Ok <==> header_problem(*header, initial_state_check) is None,
            r matches Err(e) ==> e == TrajectoryWriteError::Header(
                header_problem(*header, initial_state_check)->Some_0,
            ),
            r matches Ok(w) ==> {
                &&& w.stream() == writer
                &&& w.trajectory_timing() == header.timing
                &&& w.last_tick() == Some(header.initial_snapshot.control_tick)
            },
    {
        match header.validate(initial_state_check) {
            Err(e) => Err(TrajectoryWriteError::Header(e)),
            Ok(()) => Ok(JsonlTrajectoryWriter {
                writer,
                timing: header.timing,
                last_control_tick: Some(header.initial_snapshot.control_tick),
            }),
        }
    }

    /// Whether `frame` may be written next: its values and tick alignment must be valid and
    /// its control tick must exceed the last recorded one.
    pub fn check_frame<S, A, E>(
        &self,
        frame: &TelemetryFrame<S, A>,
        checks: FrameChecks<E>,
    ) -> (r: Result<(), TrajectoryWriteError<E>>)
        ensures
            r == as_result(admission_problem(
                self.last_tick(),
                self.trajectory_timing(),
                frame.snapshot.control_tick,
                frame.snapshot.physics_tick,
                checks,
            )),
    {
        match frame.validate(self.timing, checks) {
            Err(e) => return Err(TrajectoryWriteError::InvalidFrame(e)),
            Ok(()) => {},
        }
        match self.last_control_tick {
            Some(previous) => {
                if frame.snapshot.control_tick <= previous {
                    return Err(TrajectoryWriteError::NonMonotonicControlTick {
                        previous,
                        current: frame.snapshot.control_tick,
                    });
                }
            },
            None => {},
        }
        Ok(())
    }

    /// Records that the line of `frame` was written.
    pub fn commit_frame<S, A>(&mut self, frame: &TelemetryFrame<S, A>)
        ensures
            final(self).last_tick() == Some(frame.snapshot.control_tick),
            final(self).stream() == old(self).stream(),
            final(self).trajectory_timing() == old(self).trajectory_timing(),
    {
        self.last_control_tick = Some(frame.snapshot.control_tick);
    }

    /// Borrows the output stream.
    pub fn get_ref(&self) -> (w: &W)
        ensures
            *w == self.stream(),
    {
        &self.writer
    }

    /// Mutably borrows the output stream.
    pub fn get_mut(&mut self) -> (w: &mut W)
        ensures
            *w == old(self).stream(),
            final(self).stream() == *final(w),
            final(self).trajectory_timing() == old(self).trajectory_timing(),
            final(self).last_tick() == old(self).last_tick(),
    {
        &mut self.writer
    }

    /// Consumes the writer and gives back the output stream.
    pub fn into_inner(self) -> (w: W)
        ensures
            w == self.stream(),
    {
        self.writer
    }
}

/// A recorded frame sequence that the reader refuses.
#[derive(Clone, Debug, PartialEq)]
pub enum FrameSequenceError<E> {
    /// The control tick of frame `index` does not exceed the one before it.
    NonMonotonicTick { index: usize },
    /// Frame `index` breaks the persistent format.
    InvalidFrame { index: usize, source: TelemetryFrameError<E> },
}

/// Control tick before frame `i`: the header's initial tick for the first frame.
pub open spec fn previous_control_tick<S, A>(header: TrajectoryHeader<S>, frames: Seq<TelemetryFrame<S, A>>, i: int) -> u64 {
    if i == 0 {
        header.initial_snapshot.control_tick
    } else {
        frames[i - 1].snapshot.control_tick
    }
}

/// The defect of frame `i` of a recorded sequence, if any.
pub open spec fn sequence_frame_problem<S, A, E>(
    header: TrajectoryHeader<S>,
    frames: Seq<TelemetryFrame<S, A>>,
    checks: Seq<FrameChecks<E>>,
    i: int,
) -> Option<FrameSequenceError<E>> {
    let frame = frames[i];
    match frame_problem(frame.snapshot.control_tick, frame.snapshot.physics_tick, header.timing, checks[i]) {
        Some(source) => Some(FrameSequenceError::InvalidFrame { index: i as usize, source }),
        None => if frame.snapshot.control_tick <= previous_control_tick(header, frames, i) {
            Some(FrameSequenceError::NonMonotonicTick { index: i as usize })
        } else {
            None
        },
    }
}

/// The defect of the first defective frame at or after `from`.
pub open spec fn first_sequence_problem<S, A, E>(
    header: TrajectoryHeader<S>,
    frames: Seq<TelemetryFrame<S, A>>,
    checks: Seq<FrameChecks<E>>,
    from: int,
) -> Option<FrameSequenceError<E>>
    decreases frames.len() - from,
{
    if from < 0 || from >= frames.len() {
        None
    } else if sequence_frame_problem(header, frames, checks, from) is Some {
        sequence_frame_problem(header, frames, checks, from)
    } else {
        first_sequence_problem(header, frames, checks, from + 1)
    }
}

proof fn lemma_first_sequence_problem_skips<S, A, E>(
    header: TrajectoryHeader<S>,
    frames: Seq<TelemetryFrame<S, A>>,
    checks: Seq<FrameChecks<E>>,
    from: int,
    to: int,
)
    requires
        0 <= from <= to,
        forall|j: int| from <= j < to && j < frames.len() ==> #[trigger] sequence_frame_problem(header, frames, checks, j) is None,
    ensures
        first_sequence_problem(header, frames, checks, from) == first_sequence_problem(header, frames, checks, to),
    decreases to - from,
{
    if from < to && from < frames.len() {
        lemma_first_sequence_problem_skips(header, frames, checks, from + 1, to);
    }
}

/// Checks the frames that follow an accepted header, in order: each must be a valid frame
/// for the header timing (`checks[i]` holds the outcomes of checking the values of
/// `frames[i]`), and control ticks must strictly increase from the initial snapshot on.
/// Reports the first defective frame.
pub fn validate_frame_sequence<S, A, E: Copy>(
    header: &TrajectoryHeader<S>,
    frames: &Vec<TelemetryFrame<S, A>>,
    checks: &Vec<FrameChecks<E>>,
) -> (r: Result<(), FrameSequenceError<E>>)
    requires
        frames@.len() == checks@.len(),
    ensures
        r == as_result(first_sequence_problem(*header, frames@, checks@, 0)),
{
    let mut previous: u64 = header.initial_snapshot.control_tick;
    let mut index: usize = 0;
    while index < frames.len()
        invariant
            index <= frames@.len(),
            frames@.len() == checks@.len(),
            previous == previous_control_tick(*header, frames@, index as int),
            forall|j: int| 0 <= j < index ==> #[trigger] sequence_frame_problem(*header, frames@, checks@, j) is None,
        decreases frames@.len() - index,
    {
        let frame = &frames[index];
        let frame_checks = FrameChecks {
            state: checks[index].state,
            requested_action: checks[index].requested_action,
            applied_action: checks[index].applied_action,
        };
        assert(frame_checks == checks@[index as int]);
        match frame.validate(header.timing, frame_checks) {
            Err(source) => {
                proof {
                    lemma_first_sequence_problem_skips(*header, frames@, checks@, 0, index as int);
                }
                return Err(FrameSequenceError::InvalidFrame { index, source });
            },
            Ok(()) => {},
        }
        if frame.snapshot.control_tick <= previous {
            proof {
                lemma_first_sequence_problem_skips(*header, frames@, checks@, 0, index as int);
            }
            return Err(FrameSequenceError::NonMonotonicTick { index });
        }
        previous = frame.snapshot.control_tick;
        index = index + 1;
    }
    proof {
        lemma_first_sequence_problem_skips(*header, frames@, checks@, 0, frames@.len() as int);
    }
    Ok(())
}

/// Law: frames that a writer opened on `header` admitted one after another, each committed
/// before the next, form a sequence that the reader accepts after that header.
pub proof fn lemma_written_frames_are_readable<S, A, E>(
    header: TrajectoryHeader<S>,
    frames: Seq<TelemetryFrame<S, A>>,
    checks: Seq<FrameChecks<E>>,
)
    requires
        frames.len() == checks.len(),
        forall|i: int|
            0 <= i < frames.len() ==> #[trigger] admission_problem(
                Some(previous_control_tick(header, frames, i)),
                header.timing,
                frames[i].snapshot.control_tick,
                frames[i].snapshot.physics_tick,
                checks[i],
            ) is None,
    ensures
        first_sequence_problem(header, frames, checks, 0) is None,
{
    assert forall|j: int| 0 <= j < frames.len() implies #[trigger] sequence_frame_problem(header, frames, checks, j) is None by {
        assert(admission_problem(
            Some(previous_control_tick(header, frames, j)),
            header.timing,
            frames[j].snapshot.control_tick,
            frames[j].snapshot.physics_tick,
            checks[j],
        ) is None);
    }
    lemma_first_sequence_problem_skips(header, frames, checks, 0, frames.len() as int);
}

/// Law: once a frame at `control_tick` is committed, a frame at the same or an earlier
/// control tick is refused as non-monotonic whenever its own values and alignment are valid.
pub proof fn lemma_committed_tick_is_not_rewritten<E>(
    timing: SimulationTiming,
    committed_tick: u64,
    control_tick: u64,
    physics_tick: u64,
    checks: FrameChecks<E>,
)
    requires
        control_tick <= committed_tick,
        frame_problem(control_tick, physics_tick, timing, checks) is None,
    ensures
        admission_problem(Some(committed_tick), timing, control_tick, physics_tick, checks) == Some(
            TrajectoryWriteError::<E>::NonMonotonicControlTick { previous: committed_tick, current: control_tick },
        ),
{
}

/// Law: one plant step from a tick-aligned snapshot lands on a tick-aligned snapshot one
/// control tick later, exactly one control period of simulation time ahead.
pub proof fn lemma_step_keeps_ticks_aligned(control_tick: u64, physics_tick: u64, timing: SimulationTiming)
    requires
        physics_tick == control_tick * timing.substeps(),
        spec_next_ticks(control_tick, physics_tick, timing) is Some,
    ensures
        ({
            let (next_control, next_physics) = spec_next_ticks(control_tick, physics_tick, timing)->Some_0;
            &&& next_control == control_tick + 1
            &&& next_physics == next_control * timing.substeps()
            &&& timing.step_ns() * next_physics == timing.step_ns() * physics_tick + timing.control_period_ns()
        }),
{
    let (next_control, next_physics) = spec_next_ticks(control_tick, physics_tick, timing)->Some_0;
    vstd::arithmetic::mul::lemma_mul_is_distributive_add_other_way(
        timing.substeps() as int,
        control_tick as int,
        1,
    );
    vstd::arithmetic::mul::lemma_mul_is_distributive_add(
        timing.step_ns() as int,
        physics_tick as int,
        timing.substeps() as int,
    );
}

/// Control tick that a single replay step lands on: one forward, stopping at the last
/// recorded tick, or one back, stopping at zero.
pub fn stepped_control_tick(current_control_tick: u64, end_control_tick: u64, forward: bool) -> (tick: u64)
    ensures
        tick == if forward {
            if current_control_tick + 1 <= end_control_tick { current_control_tick + 1 } else { end_control_tick as int }
        } else {
            if current_control_tick == 0 { 0 } else { current_control_tick - 1 }
        },
{
    if forward {
        let next = current_control_tick.saturating_add(1);
        if next < end_control_tick { next } else { end_control_tick }
    } else {
        current_control_tick.saturating_sub(1)
    }
}

} // verus!
