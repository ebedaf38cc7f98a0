use vstd::prelude::*;

use crate::propulsion::{
    applied_on_time, gate_request_problem, ApolloPropulsionSpec, PropulsionValidationError, RcsCommand,
    RCS_THRUSTER_COUNT,
};
use crate::timing::SimulationTiming;
use crate::trajectory::{PlantSnapshot, spec_next_ticks, next_ticks};

verus! {

/// A step was refused because a tick counter would overflow.
#[derive(Clone, Copy, Debug, PartialEq, Eq, Structural)]
pub struct TickOverflow;

/// Tick bookkeeping of a synchronous plant: both counters restart at zero on reset and each
/// step adds exactly one control tick and one control period of physics ticks, so the
/// physics tick is always the control tick times the substeps per control step.
#[derive(Clone, Copy, Debug)]
pub struct PlantClock {
    timing: SimulationTiming,
    control_tick: u64,
    physics_tick: u64,
}

impl PlantClock {
    #[verifier::type_invariant]
    spec fn aligned(self) -> bool {
        self.physics_tick == self.control_tick * self.timing.substeps()
    }

    /// Fixed timing of the plant.
    pub closed spec fn clock_timing(self) -> SimulationTiming {
        self.timing
    }

    /// Control steps completed since the last reset.
    pub closed spec fn clock_control_tick(self) -> u64 {
        self.control_tick
    }

    /// Physics substeps completed since the last reset.
    pub closed spec fn clock_physics_tick(self) -> u64 {
        self.physics_tick
    }

    /// A clock at tick zero.
    pub fn new(timing: SimulationTiming) -> (clock: Self)
        ensures
            clock.clock_timing() == timing,
            clock.clock_control_tick() == 0,
            clock.clock_physics_tick() == 0,
    {
        proof {
            vstd::arithmetic::mul::lemma_mul_basics(timing.substeps() as int);
        }
        PlantClock { timing, control_tick: 0, physics_tick: 0 }
    }

    /// The fixed timing.
    pub fn timing(&self) -> (timing: SimulationTiming)
        ensures
            timing == self.clock_timing(),
    {
        self.timing
    }

    /// Current ticks; the physics tick is always the control tick times the substeps.
    pub fn ticks(&self) -> (ticks: (u64, u64))
        ensures
            ticks == (self.clock_control_tick(), self.clock_physics_tick()),
            ticks.1 == ticks.0 * self.clock_timing().substeps(),
    {
        proof {
            use_type_invariant(self);
        }
        (self.control_tick, self.physics_tick)
    }

    /// Back to tick zero.
    pub fn reset(&mut self)
        ensures
            final(self).clock_timing() == old(self).clock_timing(),
            final(self).clock_control_tick() == 0,
            final(self).clock_physics_tick() == 0,
    {
        *self = PlantClock::new(self.timing);
    }

    /// Counts one control step. On overflow nothing changes, so a refused step leaves the
    /// plant exactly as it was.
    pub fn advance(&mut self) -> (r: Result<(), TickOverflow>)
        ensures
            final(self).clock_timing() == old(self).clock_timing(),
            r is Ok <==> spec_next_ticks(
                old(self).clock_control_tick(),
                old(self).clock_physics_tick(),
                old(self).clock_timing(),
            ) is Some,
            r is Ok ==> Some((final(self).clock_control_tick(), final(self).clock_physics_tick())) == spec_next_ticks(
                old(self).clock_control_tick(),
                old(self).clock_physics_tick(),
                old(self).clock_timing(),
            ),
            r is Err ==> *final(self) == *old(self),
    {
        proof {
            use_type_invariant(&*self);
        }
        match next_ticks(self.control_tick, self.physics_tick, self.timing) {
            Some((control_tick, physics_tick)) => {
                proof {
                    vstd::arithmetic::mul::lemma_mul_is_distributive_add_other_way(
                        self.timing.substeps() as int,
                        self.control_tick as int,
                        1,
                    );
                }
                *self = PlantClock { timing: self.timing, control_tick, physics_tick };
                Ok(())
            },
            None => Err(TickOverflow),
        }
    }

    /// Snapshot of `state` at the current ticks.
    pub fn snapshot<S>(&self, state: S) -> (snapshot: PlantSnapshot<S>)
        ensures
            snapshot.state == state,
            snapshot.control_tick == self.clock_control_tick(),
            snapshot.physics_tick == self.clock_physics_tick(),
            snapshot.physics_tick == snapshot.control_tick * self.clock_timing().substeps(),
    {
        proof {
            use_type_invariant(self);
        }
        PlantSnapshot { state, control_tick: self.control_tick, physics_tick: self.physics_tick }
    }
}

/// Why a propulsion plant refuses a control step.
#[derive(Clone, Debug, PartialEq, Eq)]
pub enum StepRefusal {
    /// The command breaks a rule of the propulsion specification.
    InvalidCommand(PropulsionValidationError),
    /// A tick counter would overflow.
    TickOverflow,
}

/// Decides whether a propulsion plant may take its next control step, in the order the plant
/// checks: the real-valued command check (`command_check`), the RCS gate requests against the
/// specification and `timing` (with the valves open at the period start given by
/// `gate_open_at_start`), the descent engine resolution (`dps_check`), then the tick counters.
/// On success the clock counts the step and the minimum-pulse valve times are returned; on
/// refusal the clock is untouched and no valve time is returned, so a refused step changes
/// nothing.
pub fn begin_propulsion_step(
    clock: &mut PlantClock,
    spec: ApolloPropulsionSpec,
    command: RcsCommand,
    gate_open_at_start: [bool; RCS_THRUSTER_COUNT],
    command_check: Result<(), PropulsionValidationError>,
    dps_check: Result<(), PropulsionValidationError>,
) -> (r: Result<[u64; RCS_THRUSTER_COUNT], StepRefusal>)
    ensures
        final(clock).clock_timing() == old(clock).clock_timing(),
        r is Err ==> *final(clock) == *old(clock),
        command_check matches Err(e) ==> r == Err::<[u64; RCS_THRUSTER_COUNT], _>(StepRefusal::InvalidCommand(e)),
        command_check is Ok && gate_request_problem(command, spec, old(clock).clock_timing()) is Some ==> (r matches Err(
            StepRefusal::InvalidCommand(e),
        ) && Some(e@) == gate_request_problem(command, spec, old(clock).clock_timing())),
        command_check is Ok && gate_request_problem(command, spec, old(clock).clock_timing()) is None
            && dps_check is Err ==> r == Err::<[u64; RCS_THRUSTER_COUNT], _>(
            StepRefusal::InvalidCommand(dps_check->Err_0),
        ),
        command_check is Ok && gate_request_problem(command, spec, old(clock).clock_timing()) is None
            && dps_check is Ok ==> {
            &&& r is Ok <==> spec_next_ticks(
                old(clock).clock_control_tick(),
                old(clock).clock_physics_tick(),
                old(clock).clock_timing(),
            ) is Some
            &&& r is Err ==> r == Err::<[u64; RCS_THRUSTER_COUNT], _>(StepRefusal::TickOverflow)
        },
        r matches Ok(applied) ==> {
            &&& Some((final(clock).clock_control_tick(), final(clock).clock_physics_tick())) == spec_next_ticks(
                old(clock).clock_control_tick(),
                old(clock).clock_physics_tick(),
                old(clock).clock_timing(),
            )
            &&& forall|i: int|
                0 <= i < RCS_THRUSTER_COUNT ==> #[trigger] applied@[i] == applied_on_time(
                    command.on_time_ns@[i],
                    gate_open_at_start@[i],
                    spec.rcs_thrusters@[i].minimum_pulse_ns,
                )
            &&& forall|i: int|
                0 <= i < RCS_THRUSTER_COUNT ==> {
                    let requested = #[trigger] command.on_time_ns@[i];
                    let minimum = spec.rcs_thrusters@[i].minimum_pulse_ns;
                    &&& requested == 0 ==> applied@[i] == 0
                    &&& requested > 0 && gate_open_at_start@[i] ==> applied@[i] == requested
                    &&& requested >= minimum ==> applied@[i] == requested
                    &&& 0 < requested < minimum && !gate_open_at_start@[i] ==> applied@[i] == minimum
                }
        },
{
    match command_check {
        Err(e) => return Err(StepRefusal::InvalidCommand(e)),
        Ok(()) => {},
    }
    let applied = match command.applied_gate_on_times_with_initial_gate_state(spec, clock.timing(), gate_open_at_start) {
        Ok(applied) => applied,
        Err(e) => return Err(StepRefusal::InvalidCommand(e)),
    };
    match dps_check {
        Err(e) => return Err(StepRefusal::InvalidCommand(e)),
        Ok(()) => {},
    }
    match clock.advance() {
        Ok(()) => Ok(applied),
        Err(_) => Err(StepRefusal::TickOverflow),
    }
}

} // verus!
