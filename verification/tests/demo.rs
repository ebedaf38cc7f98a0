use apollo_core::combinations::{candidate_replaces, is_indices_less, sorted_indices, visit_combinations, ScoreOrder};
use apollo_core::demo_controls::{DemoDpsSetting, DemoMode, PropulsionDemoControls};
use apollo_core::propulsion::{RCS_MINIMUM_PULSE_NS, RCS_THRUSTER_COUNT};

fn torque_sets() -> [Vec<usize>; 6] {
    std::array::from_fn(|index| vec![index, index + 6])
}

#[test]
fn fourteen_millisecond_pulse_and_full_tick_continuous_are_distinct() {
    let controls = PropulsionDemoControls::default();
    let pulse = controls.build_request(&torque_sets(), true, false, 20_000_000);
    let continuous = controls.build_request(&torque_sets(), false, true, 20_000_000);
    assert_eq!(pulse.rcs_on_time_ns[0], RCS_MINIMUM_PULSE_NS);
    assert_eq!(continuous.rcs_on_time_ns[0], 20_000_000);
    assert_eq!(pulse.rcs_on_time_ns.iter().filter(|value| **value > 0).count(), 1);
}

#[test]
fn selection_wraps_in_single_and_torque_modes() {
    let mut controls = PropulsionDemoControls::default();
    controls.select_previous();
    assert_eq!(controls.selected_single_thruster, 15);
    controls.cycle_mode();
    controls.select_previous();
    assert_eq!(controls.selected_torque_axis, 5);
    controls.cycle_mode();
    controls.select_next();
    assert_eq!(controls.mode, DemoMode::Dps);
}

#[test]
fn torque_mode_fires_the_selected_couple() {
    let mut controls = PropulsionDemoControls::default();
    controls.cycle_mode();
    controls.select_next();
    controls.select_next();
    let request = controls.build_request(&torque_sets(), false, true, 20_000_000);
    for index in 0..RCS_THRUSTER_COUNT {
        let expected = if index == 2 || index == 8 { 20_000_000 } else { 0 };
        assert_eq!(request.rcs_on_time_ns[index], expected);
    }
    assert_eq!(controls.selected_rcs_indices(&torque_sets()), vec![2, 8]);
    let idle = controls.build_request(&torque_sets(), false, false, 20_000_000);
    assert_eq!(idle.rcs_on_time_ns, [0; RCS_THRUSTER_COUNT]);
}

#[test]
fn out_of_range_couple_members_are_ignored() {
    let mut sets = torque_sets();
    sets[0] = vec![1, 40];
    let mut controls = PropulsionDemoControls::default();
    controls.cycle_mode();
    let request = controls.build_request(&sets, true, false, 20_000_000);
    assert_eq!(request.rcs_on_time_ns.iter().filter(|value| **value > 0).count(), 1);
    assert_eq!(request.rcs_on_time_ns[1], RCS_MINIMUM_PULSE_NS);
}

#[test]
fn dps_steps_reach_the_separate_full_thrust_detent() {
    let mut controls = PropulsionDemoControls::default();
    assert_eq!(controls.build_request(&torque_sets(), false, false, 20_000_000).dps, DemoDpsSetting::Off);
    controls.toggle_dps();
    for level in 0..PropulsionDemoControls::FULL_THRUST_LEVEL {
        assert_eq!(controls.dps_thrust_level, level);
        assert_eq!(
            controls.build_request(&torque_sets(), false, false, 20_000_000).dps,
            DemoDpsSetting::Variable { level }
        );
        controls.step_dps_thrust_up();
    }
    assert_eq!(controls.build_request(&torque_sets(), false, false, 20_000_000).dps, DemoDpsSetting::FullThrust);
    controls.step_dps_thrust_up();
    assert_eq!(controls.dps_thrust_level, PropulsionDemoControls::FULL_THRUST_LEVEL);
    controls.step_dps_thrust_down();
    assert_eq!(controls.dps_thrust_level, 10);
    controls.all_off();
    assert!(!controls.dps_enabled);
    controls.reset();
    assert_eq!(controls, PropulsionDemoControls::default());
    controls.step_dps_thrust_down();
    assert_eq!(controls.dps_thrust_level, 0);
}

#[test]
fn mode_cycle_returns_after_three_switches() {
    for mode in [DemoMode::SingleRcs, DemoMode::TorqueCouple, DemoMode::Dps] {
        assert_eq!(mode.next().next().next(), mode);
        assert_ne!(mode.next(), mode);
    }
    assert_eq!(DemoMode::SingleRcs.next(), DemoMode::TorqueCouple);
}

#[test]
fn previous_undoes_next() {
    let mut controls = PropulsionDemoControls::default();
    for _ in 0..20 {
        let before = controls;
        controls.select_next();
        controls.select_previous();
        assert_eq!(controls, before);
        controls.select_next();
    }
}

#[test]
fn combinations_are_lexicographic_and_complete() {
    let mut indices = Vec::new();
    let mut visited = Vec::new();
    visit_combinations(4, 2, 0, &mut indices, &mut visited);
    assert_eq!(
        visited,
        vec![vec![0, 1], vec![0, 2], vec![0, 3], vec![1, 2], vec![1, 3], vec![2, 3]]
    );
    assert!(indices.is_empty());

    let mut visited = Vec::new();
    visit_combinations(16, 4, 0, &mut indices, &mut visited);
    assert_eq!(visited.len(), 1820);

    let mut visited = Vec::new();
    visit_combinations(3, 4, 0, &mut indices, &mut visited);
    assert!(visited.is_empty());

    let mut prefix = vec![7];
    let mut visited = Vec::new();
    visit_combinations(4, 2, 2, &mut prefix, &mut visited);
    assert_eq!(visited, vec![vec![7, 2], vec![7, 3]]);
    assert_eq!(prefix, vec![7]);
}

#[test]
fn stable_indices_are_sorted_with_repeats_kept() {
    assert_eq!(sorted_indices(&[11, 3, 7, 3]), vec![3, 3, 7, 11]);
    assert_eq!(sorted_indices(&[]), Vec::<usize>::new());
    assert_eq!(sorted_indices(&[5]), vec![5]);
}

#[test]
fn index_lists_compare_lexicographically_with_prefix_first() {
    assert!(is_indices_less(&[1, 2], &[1, 3]));
    assert!(!is_indices_less(&[1, 3], &[1, 2]));
    assert!(is_indices_less(&[1, 2], &[1, 2, 0]));
    assert!(!is_indices_less(&[1, 2], &[1, 2]));
    assert!(is_indices_less(&[0, 9, 9], &[1, 0]));
}

#[test]
fn equal_scores_keep_the_smaller_stable_indices() {
    assert!(candidate_replaces(ScoreOrder::Better, &[9, 10], &[0, 1]));
    assert!(candidate_replaces(ScoreOrder::Tie, &[0, 5], &[0, 6]));
    assert!(!candidate_replaces(ScoreOrder::Tie, &[0, 6], &[0, 5]));
    assert!(!candidate_replaces(ScoreOrder::Worse, &[0, 1], &[9, 10]));
}

#[test]
fn dps_steps_cover_variable_range_then_enter_separate_full_thrust_detent() {
    let mut controls = PropulsionDemoControls { dps_enabled: true, ..Default::default() };
    for level in 0..=PropulsionDemoControls::FULL_THRUST_LEVEL {
        controls.dps_thrust_level = level;
        let request = controls.build_request(&torque_sets(), false, false, 20_000_000);
        if level < PropulsionDemoControls::FULL_THRUST_LEVEL {
            let DemoDpsSetting::Variable { level: requested } = request.dps else {
                panic!("variable level must not become full thrust");
            };
            assert_eq!(requested, level);
            // Each variable step is 525 lbf above the 1050 lbf minimum, up to the 6300 lbf maximum.
            let thrust_lbf = 1_050 + u32::from(requested) * 525;
            assert!(thrust_lbf <= 6_300);
        } else {
            assert_eq!(request.dps, DemoDpsSetting::FullThrust);
        }
    }
}

#[test]
fn equal_torque_uses_stable_index_lexicographic_tie_break() {
    // Two couples about +X with equal torque: jets 12 and 13 come first, jets 0 and 1 second.
    let candidates = [sorted_indices(&[13, 12]), sorted_indices(&[1, 0])];
    let mut best: Option<Vec<usize>> = None;
    for candidate in candidates {
        let replaces = match &best {
            None => true,
            Some(current) => candidate_replaces(ScoreOrder::Tie, &candidate, current),
        };
        if replaces {
            best = Some(candidate);
        }
    }
    assert_eq!(best, Some(vec![0, 1]));
}
