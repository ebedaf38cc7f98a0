use vstd::prelude::*;

verus! {

/// Physics step of the Apollo baseline: 2 ms.
pub const APOLLO_PHYSICS_STEP_NS: u64 = 2_000_000;

/// Physics substeps held for one external control step.
pub const APOLLO_SUBSTEPS_PER_CONTROL: u32 = 10;

/// MuJoCo timestep of the attitude demo, in microseconds.
pub const APOLLO_MUJOCO_TIMESTEP_MICROS: u64 = 2_000;

/// MuJoCo steps over which the attitude demo holds one controller output.
pub const APOLLO_CONTROL_HOLD_STEPS: usize = 10;

/// Controller period of the attitude demo, in microseconds: the MuJoCo timestep times the
/// hold steps, so the two cannot drift apart.
pub const APOLLO_CONTROLLER_TIMESTEP_MICROS: u64 = APOLLO_MUJOCO_TIMESTEP_MICROS * (APOLLO_CONTROL_HOLD_STEPS as u64);

/// Timing of a deterministic simulation.
///
/// Integer nanoseconds and integer ticks are the authoritative clock; seconds are
/// only derived at the edges. Both values are always nonzero.
#[derive(Clone, Copy, Debug, PartialEq, Eq)]
pub struct SimulationTiming {
    physics_step_ns: u64,
    substeps_per_control: u32,
}

impl SimulationTiming {
    #[verifier::type_invariant]
    spec fn nonzero(self) -> bool {
        self.physics_step_ns > 0 && self.substeps_per_control > 0
    }

    /// Nanoseconds of one physics substep.
    pub closed spec fn step_ns(self) -> u64 {
        self.physics_step_ns
    }

    /// Physics substeps in one control step.
    pub closed spec fn substeps(self) -> u32 {
        self.substeps_per_control
    }

    /// Two timings are the same exactly when their step and substep count agree.
    pub proof fn lemma_timings_equal_by_fields(a: Self, b: Self)
        ensures
            (a == b) <==> (a.step_ns() == b.step_ns() && a.substeps() == b.substeps()),
    {
    }

    /// Nanoseconds of one control step.
    pub open spec fn control_period_ns(self) -> int {
        self.step_ns() * self.substeps()
    }

    /// The Apollo baseline: 2 ms physics steps, each action held for 10 of them.
    pub fn apollo() -> (timing: Self)
        ensures
            timing.step_ns() == APOLLO_PHYSICS_STEP_NS,
            timing.substeps() == APOLLO_SUBSTEPS_PER_CONTROL,
    {
        SimulationTiming { physics_step_ns: APOLLO_PHYSICS_STEP_NS, substeps_per_control: APOLLO_SUBSTEPS_PER_CONTROL }
    }

    /// Builds a timing from values that are already known to be nonzero.
    pub fn new(physics_step_ns: u64, substeps_per_control: u32) -> (timing: Self)
        requires
            physics_step_ns > 0,
            substeps_per_control > 0,
        ensures
            timing.step_ns() == physics_step_ns,
            timing.substeps() == substeps_per_control,
    {
        SimulationTiming { physics_step_ns, substeps_per_control }
    }

    /// Builds a timing from raw integers; `None` when either value is zero.
    pub fn from_raw(physics_step_ns: u64, substeps_per_control: u32) -> (timing: Option<Self>)
        ensures
            timing is Some <==> (physics_step_ns > 0 && substeps_per_control > 0),
            timing matches Some(t) ==> t.step_ns() == physics_step_ns && t.substeps() == substeps_per_control,
    {
        if physics_step_ns == 0 || substeps_per_control == 0 {
            None
        } else {
            Some(Self::new(physics_step_ns, substeps_per_control))
        }
    }

    /// Nanoseconds of one physics substep (never zero).
    pub fn physics_step_ns(&self) -> (ns: u64)
        ensures
            ns == self.step_ns(),
            ns > 0,
    {
        proof {
            use_type_invariant(self);
        }
        self.physics_step_ns
    }

    /// Physics substeps per control step (never zero).
    pub fn substeps_per_control(&self) -> (n: u32)
        ensures
            n == self.substeps(),
            n > 0,
    {
        proof {
            use_type_invariant(self);
        }
        self.substeps_per_control
    }

    /// Integer nanoseconds of one external control step.
    pub fn control_step_ns(self) -> (ns: u128)
        ensures
            ns == self.control_period_ns(),
    {
        let step: u128 = self.physics_step_ns as u128;
        let substeps: u128 = self.substeps_per_control as u128;
        proof {
            vstd::arithmetic::mul::lemma_mul_upper_bound(
                step as int,
                u64::MAX as int,
                substeps as int,
                u32::MAX as int,
            );
        }
        step * substeps
    }

    /// Simulation time, in nanoseconds, reached after `physics_tick` substeps.
    pub fn sim_time_ns(self, physics_tick: u64) -> (ns: u128)
        ensures
            ns == self.step_ns() * physics_tick,
    {
        let step: u128 = self.physics_step_ns as u128;
        let ticks: u128 = physics_tick as u128;
        proof {
            vstd::arithmetic::mul::lemma_mul_upper_bound(
                step as int,
                u64::MAX as int,
                ticks as int,
                u64::MAX as int,
            );
        }
        step * ticks
    }

    /// Physics ticks covered by `control_ticks` control steps; `None` on overflow.
    pub fn physics_ticks_for_control_ticks(self, control_ticks: u64) -> (ticks: Option<u64>)
        ensures
            ticks is Some <==> control_ticks * self.substeps() <= u64::MAX,
            ticks matches Some(t) ==> t == control_ticks * self.substeps(),
    {
        control_ticks.checked_mul(self.substeps_per_control as u64)
    }
}

/// Law: the physics tick reached after `control_ticks` control steps marks exactly
/// `control_ticks` control periods of simulation time.
pub proof fn lemma_control_ticks_span_control_periods(timing: SimulationTiming, control_ticks: u64)
    ensures
        timing.step_ns() * (control_ticks * timing.substeps()) == control_ticks * timing.control_period_ns(),
{
    vstd::arithmetic::mul::lemma_mul_is_associative(
        timing.step_ns() as int,
        control_ticks as int,
        timing.substeps() as int,
    );
    vstd::arithmetic::mul::lemma_mul_is_associative(
        control_ticks as int,
        timing.step_ns() as int,
        timing.substeps() as int,
    );
    vstd::arithmetic::mul::lemma_mul_is_commutative(timing.step_ns() as int, control_ticks as int);
}

impl Default for SimulationTiming {
    fn default() -> (timing: Self)
        ensures
            timing.step_ns() == APOLLO_PHYSICS_STEP_NS,
            timing.substeps() == APOLLO_SUBSTEPS_PER_CONTROL,
    {
        Self::apollo()
    }
}

} // verus!
