use apollo_core::propulsion::{
    apollo11_rcs_layout, control_step_u64, invalid, quad_index, rcs_force_direction_body,
    rcs_position_body_um, ApolloPropulsionSpec, JetKind, RcsCommand, RcsFeedSystem, RcsQuad,
    RcsThrusterId, SignedAxis, RCS_MINIMUM_PULSE_NS, RCS_THRUSTER_COUNT,
};
use apollo_core::timing::SimulationTiming;

#[test]
fn apollo11_spec_has_historical_ids_quads_and_feed_split() {
    let spec = ApolloPropulsionSpec::apollo11_touchdown();
    spec.validate().unwrap();
    let labels: Vec<_> = spec.rcs_thrusters.iter().map(|thruster| thruster.label).collect();
    assert_eq!(
        labels,
        [
            "A1U", "B1D", "A1F", "B1L", "B2U", "A2D", "A2A", "B2L", "A3U", "B3D", "B3A", "A3R",
            "B4U", "A4D", "B4F", "A4R"
        ]
    );
}

#[test]
fn historical_suffix_is_plume_direction_and_force_is_opposite() {
    let layout = apollo11_rcs_layout();
    let expected = [
        SignedAxis::NegY,
        SignedAxis::PosY,
        SignedAxis::NegZ,
        SignedAxis::PosX,
        SignedAxis::NegY,
        SignedAxis::PosY,
        SignedAxis::PosZ,
        SignedAxis::PosX,
        SignedAxis::NegY,
        SignedAxis::PosY,
        SignedAxis::PosZ,
        SignedAxis::NegX,
        SignedAxis::NegY,
        SignedAxis::PosY,
        SignedAxis::NegZ,
        SignedAxis::NegX,
    ];
    for (thruster, expected) in layout.iter().zip(expected) {
        assert_eq!(thruster.force_direction_body, expected, "{}", thruster.label);
    }
}

#[test]
fn rcs_id_rejects_out_of_range_indices() {
    let valid = RcsThrusterId::new(15).unwrap();
    assert_eq!(valid.index(), 15);
    assert_eq!(valid.label(), "A4R");
    assert!(RcsThrusterId::new(16).is_none());
    assert!(RcsThrusterId::new(255).is_none());
    assert_eq!(RcsThrusterId::new(0).unwrap().label(), "A1U");
}

#[test]
fn data_book_relative_station_offsets_are_preserved() {
    let layout = apollo11_rcs_layout();
    let q4 = &layout[12..16];
    let metres = |um: i64| um as f64 * 1.0e-6;
    assert!((metres(q4[0].position_body_um[1]) - 3.12192).abs() < 1.0e-12);
    assert!((metres(q4[1].position_body_um[1]) - 2.86538).abs() < 1.0e-12);
    assert!((metres(q4[2].position_body_um[0]) - 1.5621).abs() < 1.0e-12);
    assert!((metres(q4[2].position_body_um[2]) - 1.68529).abs() < 1.0e-12);
    assert!((metres(q4[3].position_body_um[0]) - 1.68529).abs() < 1.0e-12);
    assert!((metres(q4[3].position_body_um[2]) - 1.5621).abs() < 1.0e-12);
}

#[test]
fn stations_are_mirrored_into_each_quad() {
    assert_eq!(rcs_position_body_um(JetKind::Up, RcsQuad::Quad1), [-1_678_940, 3_121_920, 1_678_940]);
    assert_eq!(rcs_position_body_um(JetKind::Up, RcsQuad::Quad3), [1_678_940, 3_121_920, -1_678_940]);
    assert_eq!(rcs_position_body_um(JetKind::Aft, RcsQuad::Quad2), [-1_562_100, 3_000_000, -1_685_290]);
    assert_eq!(rcs_force_direction_body(JetKind::Left), SignedAxis::PosX);
    assert_eq!(quad_index(RcsQuad::Quad4), 3);
}

#[test]
fn layout_labels_name_feed_quad_and_plume() {
    let layout = apollo11_rcs_layout();
    assert_eq!(layout.len(), RCS_THRUSTER_COUNT);
    for (index, entry) in layout.iter().enumerate() {
        assert_eq!(entry.id.index(), index);
        let letters: Vec<char> = entry.label.chars().collect();
        let feed = if letters[0] == 'A' { RcsFeedSystem::A } else { RcsFeedSystem::B };
        assert_eq!(entry.feed_system, feed);
        assert_eq!(quad_index(entry.quad) + 1, letters[1].to_digit(10).unwrap() as usize);
    }
}

#[test]
fn pulse_floor_is_exact_nanoseconds_without_substep_quantization() {
    let spec = ApolloPropulsionSpec::apollo11_touchdown();
    let command = RcsCommand::single_pulse(RcsThrusterId::new(0).unwrap(), 7_000_001)
        .with_on_time(RcsThrusterId::new(1).unwrap(), 15_000_001);
    let applied = command.applied_gate_on_times(spec, SimulationTiming::apollo()).unwrap();
    assert_eq!(applied[0], 14_000_000);
    assert_eq!(applied[1], 15_000_001);
}

#[test]
fn minimum_pulse_is_not_reapplied_to_an_already_open_gate() {
    let spec = ApolloPropulsionSpec::apollo11_touchdown();
    let command = RcsCommand::single_pulse(RcsThrusterId::new(0).unwrap(), 1_000_000)
        .with_on_time(RcsThrusterId::new(1).unwrap(), 1_000_000);
    let mut initially_open = [false; RCS_THRUSTER_COUNT];
    initially_open[0] = true;

    let applied = command
        .applied_gate_on_times_with_initial_gate_state(spec, SimulationTiming::apollo(), initially_open)
        .unwrap();

    assert_eq!(applied[0], 1_000_000);
    assert_eq!(applied[1], RCS_MINIMUM_PULSE_NS);
}

#[test]
fn overlong_pulse_is_rejected() {
    let spec = ApolloPropulsionSpec::apollo11_touchdown();
    let command = RcsCommand::single_pulse(RcsThrusterId::new(0).unwrap(), 20_000_001);
    let error = command.applied_gate_on_times(spec, SimulationTiming::apollo()).unwrap_err();
    assert_eq!(error.message(), "RCS 'A1U' requests 20000001 ns, longer than control step 20000000 ns");
}

#[test]
fn hold_opens_listed_jets_for_the_whole_control_step() {
    let ids = [RcsThrusterId::new(3).unwrap(), RcsThrusterId::new(9).unwrap()];
    let command = RcsCommand::hold(&ids, SimulationTiming::apollo()).unwrap();
    for index in 0..RCS_THRUSTER_COUNT {
        let expected = if index == 3 || index == 9 { 20_000_000 } else { 0 };
        assert_eq!(command.on_time_ns[index], expected);
    }
    let applied = command
        .applied_gate_on_times(ApolloPropulsionSpec::apollo11_touchdown(), SimulationTiming::apollo())
        .unwrap();
    assert_eq!(applied, command.on_time_ns);
}

#[test]
fn hold_rejects_a_control_step_beyond_64_bits() {
    let timing = SimulationTiming::new(u64::MAX, 2);
    let error = RcsCommand::hold(&[], timing).unwrap_err();
    assert_eq!(error.message(), "control step does not fit an unsigned 64-bit nanosecond value");
    assert!(control_step_u64(timing).is_err());
    assert_eq!(control_step_u64(SimulationTiming::apollo()).unwrap(), 20_000_000);
}

#[test]
fn off_and_default_commands_close_every_valve() {
    assert_eq!(RcsCommand::off().on_time_ns, [0; RCS_THRUSTER_COUNT]);
    assert_eq!(RcsCommand::default(), RcsCommand::off());
    let times = [5; RCS_THRUSTER_COUNT];
    assert_eq!(RcsCommand::from_on_times(times).on_time_ns, times);
    let applied = RcsCommand::off()
        .applied_gate_on_times(ApolloPropulsionSpec::apollo11_touchdown(), SimulationTiming::apollo())
        .unwrap();
    assert_eq!(applied, [0; RCS_THRUSTER_COUNT]);
}

#[test]
fn control_step_shorter_than_minimum_pulse_is_rejected() {
    let spec = ApolloPropulsionSpec::apollo11_touchdown();
    let timing = SimulationTiming::new(1_000_000, 10);
    let error = spec.validate_for_timing(timing).unwrap_err();
    assert_eq!(
        error.message(),
        "control step 10000000 ns is shorter than RCS minimum pulse 14000000 ns"
    );
    spec.validate_for_timing(SimulationTiming::apollo()).unwrap();
}

#[test]
fn validation_reports_each_defect_in_order() {
    let valid = ApolloPropulsionSpec::apollo11_touchdown();

    let mut spec = valid;
    spec.rcs_thrusters[2].id = RcsThrusterId::new(5).unwrap();
    assert_eq!(spec.validate().unwrap_err().message(), "RCS index 2 has mismatched id 5");

    let mut spec = valid;
    spec.rcs_thrusters[4].label = "";
    assert_eq!(spec.validate().unwrap_err().message(), "RCS index 4 has an empty label");

    let mut spec = valid;
    spec.rcs_thrusters[6].geometry_valid = false;
    assert_eq!(spec.validate().unwrap_err().message(), "RCS 'A2A' has invalid position or direction");

    let mut spec = valid;
    spec.rcs_thrusters[7].minimum_pulse_ns = 0;
    assert_eq!(spec.validate().unwrap_err().message(), "RCS 'B2L' has invalid thrust or minimum pulse");

    let mut spec = valid;
    spec.rcs_thrusters[8].thrust_valid = false;
    assert_eq!(spec.validate().unwrap_err().message(), "RCS 'A3U' has invalid thrust or minimum pulse");

    let mut spec = valid;
    spec.rcs_thrusters[0].feed_system = RcsFeedSystem::B;
    assert_eq!(
        spec.validate().unwrap_err().message(),
        "RCS must be four quads with two A and two B jets each"
    );

    let mut spec = valid;
    spec.dps_valid = false;
    assert_eq!(spec.validate().unwrap_err().message(), "DPS specification is invalid");
}

#[test]
fn invalid_carries_its_message() {
    assert_eq!(invalid("bad".to_string()).message(), "bad");
}

#[test]
fn every_id_round_trips_through_its_index() {
    for (k, id) in RcsThrusterId::all().into_iter().enumerate() {
        assert_eq!(id.index(), k);
        assert_eq!(RcsThrusterId::new(id.index() as u8), Some(id));
    }
    assert_eq!(RcsThrusterId::new(16), None);
}
