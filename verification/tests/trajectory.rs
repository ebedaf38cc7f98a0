use apollo_core::timing::SimulationTiming;
use apollo_core::trajectory::{
    next_ticks, stepped_control_tick, validate_frame_sequence, FrameChecks, FrameSequenceError,
    JsonlTrajectoryWriter, PlantSnapshot, TelemetryFrame, TelemetryFrameError, TrajectoryHeader,
    TrajectoryHeaderError, TrajectoryWriteError, APOLLO_TELEMETRY_MODEL, TELEMETRY_FORMAT,
    TELEMETRY_FORMAT_VERSION,
};

fn test_header() -> TrajectoryHeader<()> {
    TrajectoryHeader::apollo(SimulationTiming::apollo(), PlantSnapshot::initial(()))
}

fn ok_checks() -> FrameChecks<&'static str> {
    FrameChecks { state: Ok(()), requested_action: Ok(()), applied_action: Ok(()) }
}

fn frame(control_tick: u64, physics_tick: u64) -> TelemetryFrame<(), ()> {
    TelemetryFrame {
        snapshot: PlantSnapshot { state: (), control_tick, physics_tick },
        requested_action: (),
        applied_action: (),
    }
}

#[test]
fn apollo_header_uses_the_current_format() {
    let header = test_header();
    assert_eq!(header.format, TELEMETRY_FORMAT);
    assert_eq!(header.version, TELEMETRY_FORMAT_VERSION);
    assert_eq!(header.model, APOLLO_TELEMETRY_MODEL);
    assert_eq!(header.validate::<&str>(Ok(())), Ok(()));
}

#[test]
fn header_rejects_unknown_format_and_version() {
    let mut header = test_header();
    header.format = "another-format".to_owned();
    assert!(matches!(
        header.validate::<&str>(Ok(())),
        Err(TrajectoryHeaderError::UnsupportedFormat(_))
    ));

    let mut header = test_header();
    header.version += 1;
    assert_eq!(header.validate::<&str>(Ok(())), Err(TrajectoryHeaderError::UnsupportedVersion(2)));

    let mut header = test_header();
    header.model = "mars_rover".to_owned();
    assert_eq!(
        header.validate::<&str>(Ok(())),
        Err(TrajectoryHeaderError::UnsupportedModel("mars_rover".to_owned()))
    );

    let mut header = test_header();
    header.initial_snapshot.control_tick = 1;
    assert!(matches!(
        header.validate::<&str>(Ok(())),
        Err(TrajectoryHeaderError::InitialSnapshotNotAtZero { .. })
    ));
}

#[test]
fn header_reports_an_invalid_initial_state() {
    let header = test_header();
    assert_eq!(
        header.validate(Err("position contains a non-finite value")),
        Err(TrajectoryHeaderError::InvalidInitialState("position contains a non-finite value"))
    );
}

#[test]
fn jsonl_writer_rejects_an_unknown_header_before_writing() {
    let mut header = test_header();
    header.version = 99;
    let error = match JsonlTrajectoryWriter::new(Vec::<u8>::new(), &header, Ok::<(), &str>(())) {
        Ok(_) => panic!("unknown versions must be rejected"),
        Err(error) => error,
    };
    assert!(matches!(
        error,
        TrajectoryWriteError::Header(TrajectoryHeaderError::UnsupportedVersion(99))
    ));
}

#[test]
fn jsonl_writer_rejects_invalid_or_non_monotonic_frames() {
    let header = test_header();
    let mut writer = JsonlTrajectoryWriter::new(Vec::<u8>::new(), &header, Ok::<(), &str>(())).unwrap();
    let first = frame(1, 10);
    writer.check_frame(&first, ok_checks()).unwrap();
    writer.commit_frame(&first);

    assert!(matches!(
        writer.check_frame(&first, ok_checks()),
        Err(TrajectoryWriteError::NonMonotonicControlTick { previous: 1, current: 1 })
    ));

    let misaligned = frame(2, 19);
    assert!(matches!(
        writer.check_frame(&misaligned, ok_checks()),
        Err(TrajectoryWriteError::InvalidFrame(TelemetryFrameError::MisalignedPhysicsTick {
            control_tick: 2,
            physics_tick: 19,
            expected_physics_tick: 20,
        }))
    ));
}

#[test]
fn writer_gives_back_its_stream() {
    let header = test_header();
    let mut writer = JsonlTrajectoryWriter::new(vec![1u8], &header, Ok::<(), &str>(())).unwrap();
    assert_eq!(writer.get_ref(), &vec![1u8]);
    writer.get_mut().push(2);
    assert_eq!(writer.into_inner(), vec![1u8, 2]);
}

#[test]
fn frame_reports_invalid_values_first() {
    let timing = SimulationTiming::apollo();
    let misaligned = frame(2, 19);
    let checks = FrameChecks { state: Ok(()), requested_action: Err("force"), applied_action: Err("torque") };
    assert_eq!(
        misaligned.validate(timing, checks),
        Err(TelemetryFrameError::InvalidRequestedAction("force"))
    );
    let checks = FrameChecks { state: Err("state"), requested_action: Ok(()), applied_action: Ok(()) };
    assert_eq!(misaligned.validate(timing, checks), Err(TelemetryFrameError::InvalidState("state")));
    let checks = FrameChecks { state: Ok(()), requested_action: Ok(()), applied_action: Err("torque") };
    assert_eq!(
        frame(2, 20).validate(timing, checks),
        Err(TelemetryFrameError::InvalidAppliedAction("torque"))
    );
}

#[test]
fn frame_reports_tick_overflow() {
    let timing = SimulationTiming::from_raw(1, 2).unwrap();
    assert_eq!(
        frame(u64::MAX, 0).validate(timing, ok_checks()),
        Err(TelemetryFrameError::TickOverflow { control_tick: u64::MAX })
    );
}

#[test]
fn rejects_misaligned_ticks() {
    let header = test_header();
    let frames = vec![frame(1, 10), frame(2, 19)];
    let checks = vec![ok_checks(), ok_checks()];
    assert!(matches!(
        validate_frame_sequence(&header, &frames, &checks),
        Err(FrameSequenceError::InvalidFrame {
            index: 1,
            source: TelemetryFrameError::MisalignedPhysicsTick { .. },
        })
    ));
}

#[test]
fn reader_accepts_increasing_frames_and_rejects_repeats() {
    let header = test_header();
    let checks = vec![ok_checks(), ok_checks(), ok_checks()];
    assert_eq!(
        validate_frame_sequence(&header, &vec![frame(1, 10), frame(2, 20), frame(5, 50)], &checks),
        Ok(())
    );
    assert_eq!(
        validate_frame_sequence(&header, &vec![frame(1, 10), frame(1, 10), frame(5, 50)], &checks),
        Err(FrameSequenceError::NonMonotonicTick { index: 1 })
    );
    assert_eq!(
        validate_frame_sequence(&header, &vec![frame(0, 0)], &vec![ok_checks()]),
        Err(FrameSequenceError::NonMonotonicTick { index: 0 })
    );
    assert_eq!(validate_frame_sequence::<(), (), &str>(&header, &vec![], &vec![]), Ok(()));
}

#[test]
fn frames_the_writer_admits_are_read_back() {
    let header = test_header();
    let frames = vec![frame(1, 10), frame(3, 30), frame(4, 40)];
    let mut writer = JsonlTrajectoryWriter::new(Vec::<u8>::new(), &header, Ok::<(), &str>(())).unwrap();
    for f in &frames {
        writer.check_frame(f, ok_checks()).unwrap();
        writer.commit_frame(f);
    }
    let checks = vec![ok_checks(), ok_checks(), ok_checks()];
    assert_eq!(validate_frame_sequence(&header, &frames, &checks), Ok(()));
}

#[test]
fn one_step_advances_exactly_one_control_period() {
    let timing = SimulationTiming::apollo();
    assert_eq!(next_ticks(0, 0, timing), Some((1, 10)));
    assert_eq!(next_ticks(3, 30, timing), Some((4, 40)));
    assert_eq!(next_ticks(u64::MAX, 0, timing), None);
    assert_eq!(next_ticks(0, u64::MAX - 5, timing), None);
    let (control, physics) = next_ticks(3, 30, timing).unwrap();
    assert_eq!(frame(control, physics).validate(timing, ok_checks()), Ok(()));
    assert_eq!(
        timing.sim_time_ns(physics) - timing.sim_time_ns(30),
        timing.control_step_ns()
    );
}

#[test]
fn single_step_rebuilds_time_from_integer_ticks() {
    assert_eq!(stepped_control_tick(2, 5, true), 3);
    assert_eq!(stepped_control_tick(5, 5, true), 5);
    assert_eq!(stepped_control_tick(2, 5, false), 1);
    assert_eq!(stepped_control_tick(0, 5, false), 0);
    assert_eq!(stepped_control_tick(u64::MAX, 5, true), 5);
}
