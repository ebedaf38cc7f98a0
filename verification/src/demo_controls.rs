use vstd::prelude::*;

use crate::propulsion::{RCS_MINIMUM_PULSE_NS, RCS_THRUSTER_COUNT};

verus! {

/// Number of signed body axes that have a pure torque couple.
pub const TORQUE_AXIS_COUNT: usize = 6;

/// Interactive propulsion demo mode.
#[derive(Clone, Copy, Debug, PartialEq, Eq, Structural)]
pub enum DemoMode {
    SingleRcs,
    TorqueCouple,
    Dps,
}

/// The mode after `mode` in the cycle single jet, torque couple, descent engine.
pub open spec fn next_mode(mode: DemoMode) -> DemoMode {
    match mode {
        DemoMode::SingleRcs => DemoMode::TorqueCouple,
        DemoMode::TorqueCouple => DemoMode::Dps,
        DemoMode::Dps => DemoMode::SingleRcs,
    }
}

impl DemoMode {
    /// The next mode of the cycle.
    pub fn next(self) -> (mode: Self)
        ensures
            mode == next_mode(self),
    {
        match self {
            DemoMode::SingleRcs => DemoMode::TorqueCouple,
            DemoMode::TorqueCouple => DemoMode::Dps,
            DemoMode::Dps => DemoMode::SingleRcs,
        }
    }
}

/// Descent engine setting chosen by the demo controls.
#[derive(Clone, Copy, Debug, PartialEq, Eq, Structural)]
pub enum DemoDpsSetting {
    Off,
    /// Throttle step `level` (0..=10) of the variable range, 525 lbf apart from 1,050 lbf.
    Variable { level: u8 },
    /// The separate full-thrust detent.
    FullThrust,
}

/// Request built by the demo controls for the next control tick.
#[derive(Clone, Copy, Debug, PartialEq, Eq)]
pub struct DemoPropulsionRequest {
    pub rcs_on_time_ns: [u64; RCS_THRUSTER_COUNT],
    pub dps: DemoDpsSetting,
}

/// Key-driven input state of the propulsion demo. It holds no plant and bypasses no actuator
/// limit: it only turns key intents into the 16 gate times and the descent engine setting of
/// the next control tick. The gimbal angles, being real-valued, are kept beside it.
#[derive(Clone, Copy, Debug, PartialEq, Eq)]
pub struct PropulsionDemoControls {
    pub mode: DemoMode,
    pub selected_single_thruster: usize,
    pub selected_torque_axis: usize,
    /// 0..=10 step the variable range; 11 is the full-thrust detent.
    pub dps_thrust_level: u8,
    pub dps_enabled: bool,
}

/// Gate time the demo requests for each selected jet.
pub open spec fn demo_on_time(pulse_requested: bool, continuous_requested: bool, control_step_ns: u64) -> u64 {
    if continuous_requested {
        control_step_ns
    } else if pulse_requested {
        RCS_MINIMUM_PULSE_NS
    } else {
        0
    }
}

impl PropulsionDemoControls {
    /// Number of variable throttle steps.
    pub const VARIABLE_LEVEL_COUNT: u8 = 11;

    /// Level of the full-thrust detent.
    pub const FULL_THRUST_LEVEL: u8 = 11;

    /// The controls at start: single-jet mode, jet 0, axis 0, level 0, engine disabled.
    pub open spec fn spec_default() -> Self {
        PropulsionDemoControls {
            mode: DemoMode::SingleRcs,
            selected_single_thruster: 0,
            selected_torque_axis: 0,
            dps_thrust_level: 0,
            dps_enabled: false,
        }
    }

    /// Controls after selecting the next jet (single mode) or axis (torque mode), wrapping.
    pub open spec fn after_select_next(self) -> Self {
        match self.mode {
            DemoMode::SingleRcs => PropulsionDemoControls {
                selected_single_thruster: ((self.selected_single_thruster + 1) % (RCS_THRUSTER_COUNT as int)) as usize,
                ..self
            },
            DemoMode::TorqueCouple => PropulsionDemoControls {
                selected_torque_axis: ((self.selected_torque_axis + 1) % (TORQUE_AXIS_COUNT as int)) as usize,
                ..self
            },
            DemoMode::Dps => self,
        }
    }

    /// Controls after selecting the previous jet or axis; from 0 it wraps to the last.
    pub open spec fn after_select_previous(self) -> Self {
        match self.mode {
            DemoMode::SingleRcs => PropulsionDemoControls {
                selected_single_thruster: if self.selected_single_thruster == 0 {
                    (RCS_THRUSTER_COUNT - 1) as usize
                } else {
                    (self.selected_single_thruster - 1) as usize
                },
                ..self
            },
            DemoMode::TorqueCouple => PropulsionDemoControls {
                selected_torque_axis: if self.selected_torque_axis == 0 {
                    (TORQUE_AXIS_COUNT - 1) as usize
                } else {
                    (self.selected_torque_axis - 1) as usize
                },
                ..self
            },
            DemoMode::Dps => self,
        }
    }

    /// Whether selecting the next entry stays clear of the end of `usize`.
    pub open spec fn select_next_fits(self) -> bool {
        &&& self.mode == DemoMode::SingleRcs ==> self.selected_single_thruster < usize::MAX
        &&& self.mode == DemoMode::TorqueCouple ==> self.selected_torque_axis < usize::MAX
    }

    /// Controls after one throttle step up, which stops at the full-thrust detent.
    pub open spec fn after_thrust_up(self) -> Self {
        PropulsionDemoControls {
            dps_thrust_level: if self.dps_thrust_level >= Self::FULL_THRUST_LEVEL {
                Self::FULL_THRUST_LEVEL
            } else {
                (self.dps_thrust_level + 1) as u8
            },
            ..self
        }
    }

    /// Controls after one throttle step down, which stops at level 0.
    pub open spec fn after_thrust_down(self) -> Self {
        PropulsionDemoControls {
            dps_thrust_level: if self.dps_thrust_level == 0 { 0 } else { (self.dps_thrust_level - 1) as u8 },
            ..self
        }
    }

    /// Whether jet `k` belongs to the current selection (`torque_sets[axis]` lists the jets
    /// of the couple of axis `axis`).
    pub open spec fn selects_jet(self, torque_sets: [Vec<usize>; TORQUE_AXIS_COUNT], k: int) -> bool {
        match self.mode {
            DemoMode::SingleRcs => self.selected_single_thruster == k,
            DemoMode::TorqueCouple => torque_sets@[self.selected_torque_axis as int]@.contains(k as usize),
            DemoMode::Dps => false,
        }
    }

    /// The descent engine setting the controls ask for.
    pub open spec fn dps_setting(self) -> DemoDpsSetting {
        if !self.dps_enabled {
            DemoDpsSetting::Off
        } else if self.dps_thrust_level == Self::FULL_THRUST_LEVEL {
            DemoDpsSetting::FullThrust
        } else {
            DemoDpsSetting::Variable { level: self.dps_thrust_level }
        }
    }

    /// Whether `request` is the request of the controls for one tick: each selected jet gets
    /// the demo gate time, every other jet none, and the descent engine its setting.
    pub open spec fn is_request_for(
        self,
        request: DemoPropulsionRequest,
        torque_sets: [Vec<usize>; TORQUE_AXIS_COUNT],
        pulse_requested: bool,
        continuous_requested: bool,
        control_step_ns: u64,
    ) -> bool {
        let on_time = demo_on_time(pulse_requested, continuous_requested, control_step_ns);
        &&& forall|k: int|
            0 <= k < RCS_THRUSTER_COUNT ==> #[trigger] request.rcs_on_time_ns@[k] == if on_time > 0
                && self.selects_jet(torque_sets, k) {
                on_time
            } else {
                0
            }
        &&& request.dps == self.dps_setting()
    }

    /// Switches to the next mode.
    pub fn cycle_mode(&mut self)
        ensures
            *final(self) == (PropulsionDemoControls { mode: next_mode(old(self).mode), ..*old(self) }),
    {
        self.mode = self.mode.next();
    }

    /// Selects the next jet (single mode) or axis (torque mode), wrapping around.
    pub fn select_next(&mut self)
        requires
            old(self).select_next_fits(),
        ensures
            *final(self) == old(self).after_select_next(),
    {
        match self.mode {
            DemoMode::SingleRcs => {
                self.selected_single_thruster = (self.selected_single_thruster + 1) % RCS_THRUSTER_COUNT;
            },
            DemoMode::TorqueCouple => {
                self.selected_torque_axis = (self.selected_torque_axis + 1) % TORQUE_AXIS_COUNT;
            },
            DemoMode::Dps => {},
        }
    }

    /// Selects the previous jet (single mode) or axis (torque mode); from 0 it wraps to the last.
    pub fn select_previous(&mut self)
        ensures
            *final(self) == old(self).after_select_previous(),
    {
        match self.mode {
            DemoMode::SingleRcs => {
                self.selected_single_thruster = if self.selected_single_thruster == 0 {
                    RCS_THRUSTER_COUNT - 1
                } else {
                    self.selected_single_thruster - 1
                };
            },
            DemoMode::TorqueCouple => {
                self.selected_torque_axis = if self.selected_torque_axis == 0 {
                    TORQUE_AXIS_COUNT - 1
                } else {
                    self.selected_torque_axis - 1
                };
            },
            DemoMode::Dps => {},
        }
    }

    /// Enables or disables the descent engine.
    pub fn toggle_dps(&mut self)
        ensures
            *final(self) == (PropulsionDemoControls { dps_enabled: !old(self).dps_enabled, ..*old(self) }),
    {
        self.dps_enabled = !self.dps_enabled;
    }

    /// One throttle step up, stopping at the full-thrust detent.
    pub fn step_dps_thrust_up(&mut self)
        ensures
            *final(self) == old(self).after_thrust_up(),
    {
        self.dps_thrust_level = if self.dps_thrust_level >= Self::FULL_THRUST_LEVEL {
            Self::FULL_THRUST_LEVEL
        } else {
            self.dps_thrust_level + 1
        };
    }

    /// One throttle step down, stopping at level 0.
    pub fn step_dps_thrust_down(&mut self)
        ensures
            *final(self) == old(self).after_thrust_down(),
    {
        self.dps_thrust_level = self.dps_thrust_level.saturating_sub(1);
    }

    /// Shuts the descent engine off.
    pub fn all_off(&mut self)
        ensures
            *final(self) == (PropulsionDemoControls { dps_enabled: false, ..*old(self) }),
    {
        self.dps_enabled = false;
    }

    /// Back to the start controls.
    pub fn reset(&mut self)
        ensures
            *final(self) == Self::spec_default(),
    {
        *self = Self::default();
    }

    /// Jets selected by the current mode: the single jet, the couple of the selected axis
    /// (`torque_sets[axis]` lists the jets of the couple of axis `axis`), or none.
    pub fn selected_rcs_indices(&self, torque_sets: &[Vec<usize>; TORQUE_AXIS_COUNT]) -> (indices: Vec<usize>)
        requires
            self.mode == DemoMode::TorqueCouple ==> self.selected_torque_axis < TORQUE_AXIS_COUNT,
        ensures
            indices@ == match self.mode {
                DemoMode::SingleRcs => seq![self.selected_single_thruster],
                DemoMode::TorqueCouple => torque_sets@[self.selected_torque_axis as int]@,
                DemoMode::Dps => Seq::<usize>::empty(),
            },
    {
        match self.mode {
            DemoMode::SingleRcs => {
                let mut v: Vec<usize> = Vec::new();
                v.push(self.selected_single_thruster);
                v
            },
            DemoMode::TorqueCouple => {
                let selected = torque_sets[self.selected_torque_axis].clone();
                assert(selected@ =~= torque_sets@[self.selected_torque_axis as int]@);
                selected
            },
            DemoMode::Dps => Vec::new(),
        }
    }

    /// The request of the next control tick: every selected jet that is a real jet gets the
    /// full control step when held, one minimum pulse when tapped, nothing otherwise; the
    /// descent engine is off, at the selected variable step, or in its full-thrust detent.
    pub fn build_request(
        &self,
        torque_sets: &[Vec<usize>; TORQUE_AXIS_COUNT],
        pulse_requested: bool,
        continuous_requested: bool,
        control_step_ns: u64,
    ) -> (request: DemoPropulsionRequest)
        requires
            self.mode == DemoMode::TorqueCouple ==> self.selected_torque_axis < TORQUE_AXIS_COUNT,
        ensures
            self.is_request_for(request, *torque_sets, pulse_requested, continuous_requested, control_step_ns),
    {
        let mut rcs_on_time_ns: [u64; RCS_THRUSTER_COUNT] = [0; RCS_THRUSTER_COUNT];
        let on_time_ns = if continuous_requested {
            control_step_ns
        } else if pulse_requested {
            RCS_MINIMUM_PULSE_NS
        } else {
            0
        };
        let selected = self.selected_rcs_indices(torque_sets);
        let ghost sel = selected@;
        if on_time_ns > 0 {
            let mut n: usize = 0;
            while n < selected.len()
                invariant
                    n <= sel.len(),
                    sel == selected@,
                    on_time_ns > 0,
                    forall|k: int|
                        0 <= k < RCS_THRUSTER_COUNT ==> #[trigger] rcs_on_time_ns@[k] == if sel.subrange(0, n as int).contains(k as usize) {
                            on_time_ns
                        } else {
                            0
                        },
                decreases sel.len() - n,
            {
                let index = selected[n];
                if index < RCS_THRUSTER_COUNT {
                    rcs_on_time_ns[index] = on_time_ns;
                }
                proof {
                    let s0 = sel.subrange(0, n as int);
                    let s1 = sel.subrange(0, n + 1);
                    assert forall|k: int| 0 <= k < RCS_THRUSTER_COUNT implies #[trigger] rcs_on_time_ns@[k] == if s1.contains(k as usize) {
                        on_time_ns
                    } else {
                        0
                    } by {
                        if s0.contains(k as usize) {
                            let w = choose|w: int| 0 <= w < s0.len() && #[trigger] s0[w] == k as usize;
                            assert(s1[w] == k as usize);
                        }
                        if s1.contains(k as usize) {
                            let w = choose|w: int| 0 <= w < s1.len() && #[trigger] s1[w] == k as usize;
                            if w < n {
                                assert(s0[w] == k as usize);
                            }
                        }
                        if index == k {
                            assert(s1[n as int] == k as usize);
                        }
                    }
                }
                n = n + 1;
            }
            assert(sel.subrange(0, sel.len() as int) =~= sel);
        }
        proof {
            if self.mode == DemoMode::SingleRcs {
                assert forall|k: int| 0 <= k < RCS_THRUSTER_COUNT implies #[trigger] sel.contains(k as usize) == (self.selected_single_thruster == k) by {
                    if self.selected_single_thruster == k {
                        assert(sel[0] == k as usize);
                    }
                }
            }
        }
        let dps = if !self.dps_enabled {
            DemoDpsSetting::Off
        } else if self.dps_thrust_level == Self::FULL_THRUST_LEVEL {
            DemoDpsSetting::FullThrust
        } else {
            DemoDpsSetting::Variable { level: self.dps_thrust_level }
        };
        DemoPropulsionRequest { rcs_on_time_ns, dps }
    }
}

impl Default for PropulsionDemoControls {
    fn default() -> (controls: Self)
        ensures
            controls == Self::spec_default(),
    {
        PropulsionDemoControls {
            mode: DemoMode::SingleRcs,
            selected_single_thruster: 0,
            selected_torque_axis: 0,
            dps_thrust_level: 0,
            dps_enabled: false,
        }
    }
}

/// Law: three mode switches bring the demo back to the mode it started in.
pub proof fn lemma_mode_cycle_has_period_three(mode: DemoMode)
    ensures
        next_mode(next_mode(next_mode(mode))) == mode,
{
}

/// Law: on a valid selection (a real jet in single mode, a real axis in torque mode),
/// selecting the previous entry undoes selecting the next, and the reverse.
pub proof fn lemma_select_previous_undoes_next(controls: PropulsionDemoControls)
    requires
        controls.selected_single_thruster < RCS_THRUSTER_COUNT,
        controls.selected_torque_axis < TORQUE_AXIS_COUNT,
    ensures
        controls.after_select_next().after_select_previous() == controls,
        controls.after_select_previous().after_select_next() == controls,
{
}

} // verus!
