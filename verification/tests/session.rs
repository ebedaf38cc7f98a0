use apollo_core::demo_controls::{DemoDpsSetting, DemoMode, PropulsionDemoControls};
use apollo_core::demo_session::{DemoKeys, DemoSession, GimbalNudge, TickAction, TickKind};
use apollo_core::run_control::{RunControl, RunKeys};
use apollo_core::propulsion::RCS_MINIMUM_PULSE_NS;

fn torque_sets() -> [Vec<usize>; 6] {
    std::array::from_fn(|index| vec![index, index + 6])
}

fn running() -> DemoSession {
    let mut session = DemoSession::start();
    session.handle_keys(DemoKeys { toggle_pause: true, ..DemoKeys::default() });
    session
}

fn step_request(session: &mut DemoSession) -> apollo_core::demo_controls::DemoPropulsionRequest {
    match session.worker_tick(&torque_sets(), 20_000_000) {
        TickAction::Step(request) => request,
        other => panic!("expected a step, got {other:?}"),
    }
}

#[test]
fn session_starts_paused_and_waits() {
    let mut session = DemoSession::start();
    assert!(session.paused);
    assert_eq!(session.controls, PropulsionDemoControls::default());
    assert_eq!(session.worker_tick(&torque_sets(), 20_000_000), TickAction::Wait);
    assert_eq!(session, DemoSession::start());
}

#[test]
fn single_step_while_paused_advances_once() {
    let mut session = DemoSession::start();
    session.handle_keys(DemoKeys { step_once: true, ..DemoKeys::default() });
    assert!(session.step_once_requested);
    let request = step_request(&mut session);
    assert_eq!(request.rcs_on_time_ns, [0; 16]);
    assert!(!session.step_once_requested);
    assert_eq!(session.worker_tick(&torque_sets(), 20_000_000), TickAction::Wait);
}

#[test]
fn tapped_pulse_is_used_by_exactly_one_step() {
    let mut session = running();
    session.handle_keys(DemoKeys { pulse: true, ..DemoKeys::default() });
    assert!(session.pulse_queued);
    let first = step_request(&mut session);
    assert_eq!(first.rcs_on_time_ns[0], RCS_MINIMUM_PULSE_NS);
    assert_eq!(first.rcs_on_time_ns.iter().filter(|on| **on > 0).count(), 1);
    let second = step_request(&mut session);
    assert_eq!(second.rcs_on_time_ns, [0; 16]);
}

#[test]
fn pulse_key_is_idle_in_descent_engine_mode() {
    let mut session = running();
    session.handle_keys(DemoKeys { cycle_mode: true, ..DemoKeys::default() });
    session.handle_keys(DemoKeys { cycle_mode: true, pulse: true, ..DemoKeys::default() });
    assert_eq!(session.controls.mode, DemoMode::Dps);
    assert!(!session.pulse_queued);
}

#[test]
fn held_continuous_fire_waits_for_release_after_all_off() {
    let mut session = running();
    let held = DemoKeys { continuous_held: true, ..DemoKeys::default() };
    session.handle_keys(held);
    assert!(session.continuous_requested);
    assert_eq!(step_request(&mut session).rcs_on_time_ns[0], 20_000_000);

    session.handle_keys(DemoKeys { all_off: true, ..held });
    assert!(!session.continuous_requested);
    assert!(session.continuous_blocked_until_release);
    session.handle_keys(held);
    assert!(!session.continuous_requested);
    assert_eq!(step_request(&mut session).rcs_on_time_ns, [0; 16]);

    session.handle_keys(DemoKeys::default());
    assert!(!session.continuous_blocked_until_release);
    session.handle_keys(held);
    assert!(session.continuous_requested);
}

#[test]
fn all_off_while_paused_asks_for_one_step() {
    let mut session = DemoSession::start();
    session.handle_keys(DemoKeys { toggle_dps: true, pulse: true, ..DemoKeys::default() });
    assert!(session.controls.dps_enabled);
    session.handle_keys(DemoKeys { all_off: true, ..DemoKeys::default() });
    assert!(!session.controls.dps_enabled);
    assert!(!session.pulse_queued);
    assert!(session.step_once_requested);
    let request = step_request(&mut session);
    assert_eq!(request.rcs_on_time_ns, [0; 16]);
    assert_eq!(request.dps, DemoDpsSetting::Off);
}

#[test]
fn reset_key_pauses_and_resets_the_plant_first() {
    let mut session = running();
    let outcome = session.handle_keys(DemoKeys {
        cycle_mode: true,
        toggle_dps: true,
        gimbal_x_plus: true,
        reset: true,
        ..DemoKeys::default()
    });
    assert!(outcome.recentre_gimbal);
    assert_eq!(outcome.gimbal_nudges, vec![GimbalNudge::XPlus]);
    assert_eq!(session.controls, PropulsionDemoControls::default());
    assert!(session.paused);
    assert!(session.reset_requested);
    assert_eq!(session.worker_tick(&torque_sets(), 20_000_000), TickAction::ResetPlant);
    assert!(!session.reset_requested);
    assert_eq!(session.worker_tick(&torque_sets(), 20_000_000), TickAction::Wait);
}

#[test]
fn gimbal_nudges_keep_key_order() {
    let mut session = DemoSession::start();
    let outcome = session.handle_keys(DemoKeys {
        gimbal_x_minus: true,
        gimbal_x_plus: true,
        gimbal_z_plus: true,
        gimbal_z_minus: true,
        ..DemoKeys::default()
    });
    assert_eq!(
        outcome.gimbal_nudges,
        vec![GimbalNudge::XMinus, GimbalNudge::XPlus, GimbalNudge::ZPlus, GimbalNudge::ZMinus]
    );
    assert!(!outcome.recentre_gimbal);
}

#[test]
fn pause_key_toggles_and_clears_a_pending_single_step() {
    let mut session = DemoSession::start();
    session.handle_keys(DemoKeys { step_once: true, ..DemoKeys::default() });
    session.handle_keys(DemoKeys { toggle_pause: true, ..DemoKeys::default() });
    assert!(!session.paused);
    assert!(!session.step_once_requested);
    session.handle_keys(DemoKeys { step_once: true, ..DemoKeys::default() });
    assert!(!session.step_once_requested);
}

#[test]
fn torque_mode_tick_fires_the_selected_couple() {
    let mut session = running();
    session.handle_keys(DemoKeys { cycle_mode: true, select_next: true, ..DemoKeys::default() });
    session.handle_keys(DemoKeys { continuous_held: true, thrust_up: true, ..DemoKeys::default() });
    let request = step_request(&mut session);
    for index in 0..16 {
        let expected = if index == 1 || index == 7 { 20_000_000 } else { 0 };
        assert_eq!(request.rcs_on_time_ns[index], expected);
    }
    assert_eq!(session.controls.dps_thrust_level, 1);
    assert_eq!(request.dps, DemoDpsSetting::Off);
}

#[test]
fn live_run_control_starts_paused_and_steps_once_per_request() {
    let mut control = RunControl::start();
    assert_eq!(control.next_tick(), TickKind::Wait);
    control.handle_keys(RunKeys { step_once: true, ..RunKeys::default() });
    assert_eq!(control.next_tick(), TickKind::Step);
    assert_eq!(control.next_tick(), TickKind::Wait);
    control.handle_keys(RunKeys { toggle_pause: true, ..RunKeys::default() });
    assert!(!control.paused);
    assert_eq!(control.next_tick(), TickKind::Step);
    assert_eq!(control.next_tick(), TickKind::Step);
}

#[test]
fn live_reset_pauses_and_resets_before_anything_else() {
    let mut control = RunControl::start();
    control.handle_keys(RunKeys { toggle_pause: true, ..RunKeys::default() });
    control.handle_keys(RunKeys { toggle_pause: true, reset: true, step_once: true });
    assert!(control.paused);
    assert!(control.step_once_requested);
    assert_eq!(control.next_tick(), TickKind::ResetPlant);
    assert_eq!(control.next_tick(), TickKind::Step);
    assert_eq!(control.next_tick(), TickKind::Wait);
}
