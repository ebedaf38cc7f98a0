//! Key handling and tick scheduling of the interactive propulsion demo.
//!
//! The window loop hands the keys of each frame to [`DemoSession::handle_keys`]; the worker
//! that drives the plant asks [`DemoSession::worker_tick`] what to do on each control tick.
//! Both only decide: the window, the clock and the plant stay with the caller.

use vstd::prelude::*;

use crate::demo_controls::{
    DemoMode, DemoPropulsionRequest, PropulsionDemoControls, TORQUE_AXIS_COUNT, demo_on_time,
    next_mode,
};

verus! {

/// Keys of one frame. `continuous_held` tells whether the continuous-fire key is held down;
/// every other field tells whether that key went down in this frame.
#[derive(Clone, Copy, Debug, PartialEq, Eq, Default)]
pub struct DemoKeys {
    pub continuous_held: bool,
    pub cycle_mode: bool,
    pub select_previous: bool,
    pub select_next: bool,
    pub pulse: bool,
    pub toggle_dps: bool,
    pub thrust_up: bool,
    pub thrust_down: bool,
    pub gimbal_x_minus: bool,
    pub gimbal_x_plus: bool,
    pub gimbal_z_plus: bool,
    pub gimbal_z_minus: bool,
    pub all_off: bool,
    pub reset: bool,
    pub toggle_pause: bool,
    pub step_once: bool,
}

/// One nudge of the descent engine gimbal by the demo's fixed angle step.
#[derive(Clone, Copy, Debug, PartialEq, Eq, Structural)]
pub enum GimbalNudge {
    XMinus,
    XPlus,
    ZPlus,
    ZMinus,
}

/// What the keys of a frame ask of the gimbal angles, which are real-valued and kept by the
/// caller: the nudges in order, then a return to centre when `recentre_gimbal` is set.
#[derive(Clone, Debug, PartialEq, Eq)]
pub struct KeyOutcome {
    pub gimbal_nudges: Vec<GimbalNudge>,
    pub recentre_gimbal: bool,
}

/// State shared by the key handler and the control-tick worker.
#[derive(Clone, Copy, Debug, PartialEq, Eq)]
pub struct DemoSession {
    pub controls: PropulsionDemoControls,
    /// A minimum pulse waits for the next tick.
    pub pulse_queued: bool,
    pub continuous_requested: bool,
    /// After all-off or reset, a continuous-fire key still held stays ignored until released.
    pub continuous_blocked_until_release: bool,
    pub paused: bool,
    pub step_once_requested: bool,
    pub reset_requested: bool,
}

/// What the worker does on a control tick.
#[derive(Clone, Copy, Debug, PartialEq, Eq)]
pub enum TickAction {
    /// Return the plant to its initial state.
    ResetPlant,
    /// Paused: the plant does not advance.
    Wait,
    /// Advance the plant one control tick with this request.
    Step(DemoPropulsionRequest),
}

/// Which of the three tick actions a session calls for.
#[derive(Clone, Copy, Debug, PartialEq, Eq, Structural)]
pub enum TickKind {
    ResetPlant,
    Wait,
    Step,
}

/// The controls after the keys of a frame: mode switch, previous, next, engine toggle,
/// throttle up, throttle down, then all-off, with reset overriding everything.
pub open spec fn controls_after_keys(c: PropulsionDemoControls, k: DemoKeys) -> PropulsionDemoControls {
    if k.reset {
        PropulsionDemoControls::spec_default()
    } else if k.all_off {
        PropulsionDemoControls { dps_enabled: false, ..controls_before_off(c, k) }
    } else {
        controls_before_off(c, k)
    }
}

/// The controls after the selection and engine keys of a frame, before all-off and reset.
pub open spec fn controls_before_off(c: PropulsionDemoControls, k: DemoKeys) -> PropulsionDemoControls {
    let c3 = if k.select_next { selection_before_next(c, k).after_select_next() } else { selection_before_next(c, k) };
    let c4 = if k.toggle_dps { PropulsionDemoControls { dps_enabled: !c3.dps_enabled, ..c3 } } else { c3 };
    let c5 = if k.thrust_up { c4.after_thrust_up() } else { c4 };
    if k.thrust_down { c5.after_thrust_down() } else { c5 }
}

/// The controls after the mode key and the previous-entry key of a frame.
pub open spec fn selection_before_next(c: PropulsionDemoControls, k: DemoKeys) -> PropulsionDemoControls {
    let c1 = if k.cycle_mode { PropulsionDemoControls { mode: next_mode(c.mode), ..c } } else { c };
    if k.select_previous { c1.after_select_previous() } else { c1 }
}

/// The mode in which the keys of a frame are read: the mode after the mode key.
pub open spec fn mode_after_keys(c: PropulsionDemoControls, k: DemoKeys) -> DemoMode {
    if k.cycle_mode { next_mode(c.mode) } else { c.mode }
}

/// Whether the next-entry key of a frame stays clear of the end of `usize`.
pub open spec fn keys_fit(c: PropulsionDemoControls, k: DemoKeys) -> bool {
    k.select_next ==> selection_before_next(c, k).select_next_fits()
}

/// Paused state between the reset key, which pauses, and the pause key, which toggles.
pub open spec fn paused_before_toggle(s: DemoSession, k: DemoKeys) -> bool {
    k.reset || s.paused
}

/// The session after the keys of a frame.
pub open spec fn after_keys(s: DemoSession, k: DemoKeys) -> DemoSession {
    let paused = paused_before_toggle(s, k) != k.toggle_pause;
    DemoSession {
        controls: controls_after_keys(s.controls, k),
        pulse_queued: !k.all_off && !k.reset && (s.pulse_queued || (k.pulse && mode_after_keys(
            s.controls,
            k,
        ) != DemoMode::Dps)),
        continuous_requested: !k.all_off && !k.reset && k.continuous_held
            && !s.continuous_blocked_until_release,
        continuous_blocked_until_release: k.continuous_held && (k.all_off || k.reset
            || s.continuous_blocked_until_release),
        paused,
        step_once_requested: (k.step_once && paused) || (!(k.toggle_pause && paused_before_toggle(
            s,
            k,
        )) && !k.reset && (s.step_once_requested || (k.all_off && s.paused))),
        reset_requested: s.reset_requested || k.reset,
    }
}

/// The gimbal nudges of a frame, in the order left, right, up, down.
pub open spec fn gimbal_nudges_of(k: DemoKeys) -> Seq<GimbalNudge> {
    let n1 = if k.gimbal_x_minus { seq![GimbalNudge::XMinus] } else { Seq::empty() };
    let n2 = if k.gimbal_x_plus { n1.push(GimbalNudge::XPlus) } else { n1 };
    let n3 = if k.gimbal_z_plus { n2.push(GimbalNudge::ZPlus) } else { n2 };
    if k.gimbal_z_minus { n3.push(GimbalNudge::ZMinus) } else { n3 }
}

/// The action a session calls for on its next tick.
pub open spec fn tick_kind(s: DemoSession) -> TickKind {
    if s.reset_requested {
        TickKind::ResetPlant
    } else if s.paused && !s.step_once_requested {
        TickKind::Wait
    } else {
        TickKind::Step
    }
}

/// The session after its next tick: a reset is served, a step takes the queued pulse and
/// any single-step request.
pub open spec fn after_tick(s: DemoSession) -> DemoSession {
    match tick_kind(s) {
        TickKind::ResetPlant => DemoSession { reset_requested: false, ..s },
        TickKind::Wait => s,
        TickKind::Step => DemoSession { pulse_queued: false, step_once_requested: false, ..s },
    }
}

/// Applies the next-entry and engine keys of a frame to controls that already took the mode
/// and previous-entry keys.
fn apply_engine_keys(controls: &mut PropulsionDemoControls, keys: DemoKeys)
    requires
        keys.select_next ==> old(controls).select_next_fits(),
    ensures
        ({
            let c3 = if keys.select_next { old(controls).after_select_next() } else { *old(controls) };
            let c4 = if keys.toggle_dps { PropulsionDemoControls { dps_enabled: !c3.dps_enabled, ..c3 } } else { c3 };
            let c5 = if keys.thrust_up { c4.after_thrust_up() } else { c4 };
            *final(controls) == if keys.thrust_down { c5.after_thrust_down() } else { c5 }
        }),
{
    if keys.select_next {
        controls.select_next();
    }
    if keys.toggle_dps {
        controls.toggle_dps();
    }
    if keys.thrust_up {
        controls.step_dps_thrust_up();
    }
    if keys.thrust_down {
        controls.step_dps_thrust_down();
    }
}

/// The gimbal nudges of a frame, in the order left, right, up, down.
fn gimbal_nudges(keys: DemoKeys) -> (nudges: Vec<GimbalNudge>)
    ensures
        nudges@ == gimbal_nudges_of(keys),
{
    let mut nudges: Vec<GimbalNudge> = Vec::new();
    if keys.gimbal_x_minus {
        nudges.push(GimbalNudge::XMinus);
    }
    if keys.gimbal_x_plus {
        nudges.push(GimbalNudge::XPlus);
    }
    if keys.gimbal_z_plus {
        nudges.push(GimbalNudge::ZPlus);
    }
    if keys.gimbal_z_minus {
        nudges.push(GimbalNudge::ZMinus);
    }
    assert(nudges@ =~= gimbal_nudges_of(keys));
    nudges
}

impl DemoSession {
    /// A paused session with start controls and nothing queued.
    pub open spec fn spec_start() -> Self {
        DemoSession {
            controls: PropulsionDemoControls::spec_default(),
            pulse_queued: false,
            continuous_requested: false,
            continuous_blocked_until_release: false,
            paused: true,
            step_once_requested: false,
            reset_requested: false,
        }
    }

    /// A paused session with start controls and nothing queued: the plant only advances once
    /// the user resumes it or asks for a single step.
    pub fn start() -> (session: Self)
        ensures
            session == Self::spec_start(),
    {
        DemoSession {
            controls: PropulsionDemoControls::default(),
            pulse_queued: false,
            continuous_requested: false,
            continuous_blocked_until_release: false,
            paused: true,
            step_once_requested: false,
            reset_requested: false,
        }
    }

    /// Applies the keys of one frame in a fixed order and returns what they ask of the gimbal.
    /// A tapped pulse is queued only outside descent engine mode; all-off and reset drop the
    /// queued pulse and continuous fire, which stays off until its key is released; all-off
    /// while paused asks for one step so that the actuators' decay is shown; reset pauses.
    pub fn handle_keys(&mut self, keys: DemoKeys) -> (outcome: KeyOutcome)
        requires
            keys_fit(old(self).controls, keys),
        ensures
            *final(self) == after_keys(*old(self), keys),
            outcome.gimbal_nudges@ == gimbal_nudges_of(keys),
            outcome.recentre_gimbal == keys.reset,
            final(self).controls.dps_thrust_level == if keys.reset {
                0
            } else {
                let level = old(self).controls.dps_thrust_level as int;
                let raised = if keys.thrust_up {
                    if level >= 11 { 11 } else { level + 1 }
                } else {
                    level
                };
                if keys.thrust_down { if raised == 0 { 0 } else { raised - 1 } } else { raised }
            },
            final(self).controls.dps_enabled == (!keys.reset && !keys.all_off
                && (old(self).controls.dps_enabled != keys.toggle_dps)),
            final(self).paused == ((keys.reset || old(self).paused) != keys.toggle_pause),
            final(self).reset_requested == (old(self).reset_requested || keys.reset),
    {
        if !keys.continuous_held {
            self.continuous_blocked_until_release = false;
        }
        self.continuous_requested = keys.continuous_held && !self.continuous_blocked_until_release;
        self.apply_control_keys(keys);
        let gimbal_nudges = gimbal_nudges(keys);
        if keys.all_off {
            self.controls.all_off();
            self.pulse_queued = false;
            self.continuous_requested = false;
            self.continuous_blocked_until_release = keys.continuous_held;
            if self.paused {
                self.step_once_requested = true;
            }
        }
        if keys.reset {
            self.controls.reset();
            self.pulse_queued = false;
            self.continuous_requested = false;
            self.continuous_blocked_until_release = keys.continuous_held;
            self.paused = true;
            self.step_once_requested = false;
            self.reset_requested = true;
        }
        if keys.toggle_pause {
            let was_paused = self.paused;
            self.paused = !was_paused;
            if was_paused {
                self.step_once_requested = false;
            }
        }
        if keys.step_once && self.paused {
            self.step_once_requested = true;
        }
        proof {
            lemma_after_keys_fields(*old(self), keys);
        }
        KeyOutcome { gimbal_nudges, recentre_gimbal: keys.reset }
    }

    /// Applies the mode, selection, pulse and engine keys of a frame.
    fn apply_control_keys(&mut self, keys: DemoKeys)
        requires
            keys_fit(old(self).controls, keys),
        ensures
            final(self).controls == controls_before_off(old(self).controls, keys),
            final(self).pulse_queued == (old(self).pulse_queued || (keys.pulse && mode_after_keys(
                old(self).controls,
                keys,
            ) != DemoMode::Dps)),
            final(self).continuous_requested == old(self).continuous_requested,
            final(self).continuous_blocked_until_release == old(self).continuous_blocked_until_release,
            final(self).paused == old(self).paused,
            final(self).step_once_requested == old(self).step_once_requested,
            final(self).reset_requested == old(self).reset_requested,
    {
        if keys.cycle_mode {
            self.controls.cycle_mode();
        }
        if keys.select_previous {
            self.controls.select_previous();
        }
        assert(self.controls == selection_before_next(old(self).controls, keys));
        assert(self.controls.mode == mode_after_keys(old(self).controls, keys));
        if keys.pulse && self.controls.mode != DemoMode::Dps {
            self.pulse_queued = true;
        }
        let mut controls = self.controls;
        apply_engine_keys(&mut controls, keys);
        self.controls = controls;
    }

    /// Decides the worker's next control tick. A pending reset comes first; a paused session
    /// waits unless a single step was asked for; otherwise the plant steps with the request of
    /// the controls, taking the queued pulse.
    pub fn worker_tick(&mut self, torque_sets: &[Vec<usize>; TORQUE_AXIS_COUNT], control_step_ns: u64) -> (action: TickAction)
        requires
            tick_kind(*old(self)) == TickKind::Step && old(self).controls.mode == DemoMode::TorqueCouple
                ==> old(self).controls.selected_torque_axis < TORQUE_AXIS_COUNT,
        ensures
            *final(self) == after_tick(*old(self)),
            match action {
                TickAction::ResetPlant => tick_kind(*old(self)) == TickKind::ResetPlant,
                TickAction::Wait => tick_kind(*old(self)) == TickKind::Wait,
                TickAction::Step(request) => tick_kind(*old(self)) == TickKind::Step
                    && old(self).controls.is_request_for(
                    request,
                    *torque_sets,
                    old(self).pulse_queued,
                    old(self).continuous_requested,
                    control_step_ns,
                ),
            },
    {
        if self.reset_requested {
            self.reset_requested = false;
            return TickAction::ResetPlant;
        }
        let step_once = self.step_once_requested;
        if self.paused && !step_once {
            return TickAction::Wait;
        }
        self.step_once_requested = false;
        let pulse_requested = self.pulse_queued;
        self.pulse_queued = false;
        let request = self.controls.build_request(
            torque_sets,
            pulse_requested,
            self.continuous_requested,
            control_step_ns,
        );
        TickAction::Step(request)
    }
}

/// The throttle level, engine switch, pause and reset request after the keys of a frame,
/// field by field.
proof fn lemma_after_keys_fields(s: DemoSession, k: DemoKeys)
    ensures
        after_keys(s, k).controls.dps_thrust_level == if k.reset {
            0
        } else {
            let level = s.controls.dps_thrust_level as int;
            let raised = if k.thrust_up {
                if level >= 11 { 11 } else { level + 1 }
            } else {
                level
            };
            if k.thrust_down { if raised == 0 { 0 } else { raised - 1 } } else { raised }
        },
        after_keys(s, k).controls.dps_enabled == (!k.reset && !k.all_off
            && (s.controls.dps_enabled != k.toggle_dps)),
        after_keys(s, k).paused == ((k.reset || s.paused) != k.toggle_pause),
        after_keys(s, k).reset_requested == (s.reset_requested || k.reset),
{
}

/// Law: a frame whose only key is throttle-down lowers the descent engine level by one,
/// stopping at 0, and changes nothing else of the controls, the queued pulse, the pause and
/// the pending requests. Continuous fire is off, its key not being held.
pub proof fn lemma_throttle_down_alone(s: DemoSession, k: DemoKeys)
    requires
        k.thrust_down,
        !k.continuous_held,
        !k.cycle_mode,
        !k.select_previous,
        !k.select_next,
        !k.pulse,
        !k.toggle_dps,
        !k.thrust_up,
        !k.all_off,
        !k.reset,
        !k.toggle_pause,
        !k.step_once,
    ensures
        after_keys(s, k).controls.dps_thrust_level as int == if s.controls.dps_thrust_level == 0 {
            0
        } else {
            s.controls.dps_thrust_level - 1
        },
        after_keys(s, k).controls.mode == s.controls.mode,
        after_keys(s, k).controls.selected_single_thruster == s.controls.selected_single_thruster,
        after_keys(s, k).controls.selected_torque_axis == s.controls.selected_torque_axis,
        after_keys(s, k).controls.dps_enabled == s.controls.dps_enabled,
        after_keys(s, k).pulse_queued == s.pulse_queued,
        after_keys(s, k).paused == s.paused,
        after_keys(s, k).step_once_requested == s.step_once_requested,
        after_keys(s, k).reset_requested == s.reset_requested,
        !after_keys(s, k).continuous_requested,
        !after_keys(s, k).continuous_blocked_until_release,
{
}

/// Law: the throttle keys move the descent engine level by one step each, up first, within
/// `0..=11`, whatever the other keys of the frame do, unless the frame resets.
pub proof fn lemma_throttle_keys_step_level(s: DemoSession, k: DemoKeys)
    requires
        !k.reset,
        s.controls.dps_thrust_level <= 11,
    ensures
        after_keys(s, k).controls.dps_thrust_level <= 11,
        k.thrust_up && !k.thrust_down ==> after_keys(s, k).controls.dps_thrust_level as int == if s.controls.dps_thrust_level == 11 {
            11
        } else {
            s.controls.dps_thrust_level + 1
        },
        !k.thrust_up && k.thrust_down ==> after_keys(s, k).controls.dps_thrust_level as int == if s.controls.dps_thrust_level == 0 {
            0
        } else {
            s.controls.dps_thrust_level - 1
        },
        !k.thrust_up && !k.thrust_down ==> after_keys(s, k).controls.dps_thrust_level == s.controls.dps_thrust_level,
{
}

/// Law: the pause key flips the pause of a session, and the reset key pauses it first.
pub proof fn lemma_pause_key_flips_pause(s: DemoSession, k: DemoKeys)
    ensures
        !k.reset ==> after_keys(s, k).paused == (s.paused != k.toggle_pause),
        k.reset ==> after_keys(s, k).paused == !k.toggle_pause,
{
}

/// Law: while the continuous-fire key stays held after all-off or reset, continuous fire
/// stays off, whatever else is pressed.
pub proof fn lemma_held_continuous_waits_for_release(s: DemoSession, k: DemoKeys)
    requires
        s.continuous_blocked_until_release,
        k.continuous_held,
    ensures
        !after_keys(s, k).continuous_requested,
        after_keys(s, k).continuous_blocked_until_release,
{
}

/// Law: releasing the continuous-fire key lifts the block and stops continuous fire.
pub proof fn lemma_release_lifts_block(s: DemoSession, k: DemoKeys)
    requires
        !k.continuous_held,
    ensures
        !after_keys(s, k).continuous_requested,
        !after_keys(s, k).continuous_blocked_until_release,
{
}

/// Law: after all-off, the next tick that advances the plant fires no jet and leaves the
/// descent engine off.
pub proof fn lemma_all_off_silences_next_step(s: DemoSession, k: DemoKeys, control_step_ns: u64)
    requires
        k.all_off,
    ensures
        tick_kind(after_keys(s, k)) == TickKind::Step ==> demo_on_time(
            after_keys(s, k).pulse_queued,
            after_keys(s, k).continuous_requested,
            control_step_ns,
        ) == 0,
        !after_keys(s, k).controls.dps_enabled,
{
}

/// Law: after the reset key the next tick resets the plant, the controls are back at their
/// start, and the demo is paused unless the pause key was pressed in the same frame.
pub proof fn lemma_reset_key_resets_plant_first(s: DemoSession, k: DemoKeys)
    requires
        k.reset,
    ensures
        tick_kind(after_keys(s, k)) == TickKind::ResetPlant,
        after_keys(s, k).controls == PropulsionDemoControls::spec_default(),
        !k.toggle_pause ==> after_keys(s, k).paused,
        !after_keys(s, k).pulse_queued,
{
}

/// Law: a queued pulse is used by exactly one step: the step takes it, and the session after
/// that step holds none.
pub proof fn lemma_pulse_used_once(s: DemoSession)
    requires
        tick_kind(s) == TickKind::Step,
    ensures
        !after_tick(s).pulse_queued,
        after_tick(s).controls == s.controls,
{
}

/// Law: a tapped pulse in descent engine mode queues nothing.
pub proof fn lemma_no_pulse_in_dps_mode(s: DemoSession, k: DemoKeys)
    requires
        !s.pulse_queued,
        mode_after_keys(s.controls, k) == DemoMode::Dps,
    ensures
        !after_keys(s, k).pulse_queued,
{
}

/// Law: a paused session without a single-step or reset request does not advance the
/// plant, and waiting changes nothing.
pub proof fn lemma_paused_session_waits(s: DemoSession)
    requires
        s.paused,
        !s.step_once_requested,
        !s.reset_requested,
    ensures
        tick_kind(s) == TickKind::Wait,
        after_tick(s) == s,
{
}

} // verus!
