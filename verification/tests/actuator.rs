use apollo_core::actuator::{
    gate_open_after, gate_schedule, piecewise_segments, split_scheduled_interval, RCS_IGNITION_DELAY_NS, RCS_MODELED_FALLOFF_NS,
    RCS_MODELED_FULL_THRUST_TIME_NS,
};
use apollo_core::propulsion::{ApolloPropulsionSpec, RcsCommand};
use apollo_core::timing::SimulationTiming;

#[test]
fn substep_is_split_at_the_gate_close_time() {
    assert_eq!(split_scheduled_interval(12_000_000, 2_000_000, 14_000_000), (2_000_000, 0));
    assert_eq!(split_scheduled_interval(13_000_000, 2_000_000, 14_000_000), (1_000_000, 1_000_000));
    assert_eq!(split_scheduled_interval(14_000_000, 2_000_000, 14_000_000), (0, 2_000_000));
    assert_eq!(split_scheduled_interval(0, 2_000_000, 0), (0, 2_000_000));
    assert_eq!(split_scheduled_interval(u64::MAX - 1, 5, u64::MAX), (1, 4));
}

#[test]
fn seven_millisecond_breakpoint_splits_a_substep() {
    let breakpoints = [0, RCS_IGNITION_DELAY_NS, RCS_MODELED_FULL_THRUST_TIME_NS];
    assert_eq!(
        piecewise_segments(6_000_000, 8_000_000, &breakpoints),
        vec![(6_000_000, 7_000_000), (7_000_000, 8_000_000)]
    );
    assert_eq!(
        piecewise_segments(0, 30_000_000, &breakpoints),
        vec![(0, 7_000_000), (7_000_000, 20_000_000), (20_000_000, 30_000_000)]
    );
    assert!(piecewise_segments(5, 5, &breakpoints).is_empty());
    assert_eq!(piecewise_segments(0, 4, &[0, RCS_MODELED_FALLOFF_NS]), vec![(0, 4)]);
}

#[test]
fn gate_schedule_keeps_exact_gate_time() {
    let timing = SimulationTiming::apollo();
    let schedule = gate_schedule(timing, 7_000_001);
    assert_eq!(schedule.len(), 10);
    assert_eq!(schedule[0], (2_000_000, 0));
    assert_eq!(schedule[3], (1_000_001, 999_999));
    assert_eq!(schedule[4], (0, 2_000_000));
    assert_eq!(schedule.iter().map(|(open, _)| open).sum::<u64>(), 7_000_001);
    let full = gate_schedule(timing, 20_000_000);
    assert!(full.iter().all(|&(open, closed)| open == 2_000_000 && closed == 0));
}

#[test]
fn valve_is_open_at_period_end_only_for_a_full_period_gate() {
    let timing = SimulationTiming::apollo();
    for (gate_close_ns, expected) in [(20_000_000, true), (19_999_999, false), (0, false)] {
        let mut open = false;
        for (open_ns, closed_ns) in gate_schedule(timing, gate_close_ns) {
            open = gate_open_after(open, open_ns, closed_ns);
        }
        assert_eq!(open, expected);
    }
    assert!(gate_open_after(true, 0, 0));
    assert!(!gate_open_after(false, 0, 0));
}

fn valve_open_after_period(timing: SimulationTiming, gate_close_ns: u64) -> bool {
    let mut open = false;
    for (open_ns, closed_ns) in gate_schedule(timing, gate_close_ns) {
        open = gate_open_after(open, open_ns, closed_ns);
    }
    open
}

#[test]
fn full_period_then_one_millisecond_is_one_continuous_firing() {
    let timing = SimulationTiming::apollo();
    let spec = ApolloPropulsionSpec::apollo11_touchdown();
    let mut request = [0_u64; 16];
    request[0] = 20_000_000;
    let first = RcsCommand::from_on_times(request)
        .applied_gate_on_times_with_initial_gate_state(spec, timing, [false; 16])
        .unwrap();
    assert_eq!(first[0], 20_000_000);
    let open = valve_open_after_period(timing, first[0]);
    assert!(open);

    request[0] = 1_000_000;
    let mut open_at_start = [false; 16];
    open_at_start[0] = open;
    let second = RcsCommand::from_on_times(request)
        .applied_gate_on_times_with_initial_gate_state(spec, timing, open_at_start)
        .unwrap();
    assert_eq!(second[0], 1_000_000);

    assert!(!valve_open_after_period(timing, second[0]));
    let third = RcsCommand::from_on_times(request)
        .applied_gate_on_times_with_initial_gate_state(spec, timing, [false; 16])
        .unwrap();
    assert_eq!(third[0], 14_000_000);
}
