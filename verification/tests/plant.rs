use apollo_core::model::{
    check_collision_part, check_model_spec, is_valid_model_name, CollisionPartChecks, CollisionPartProblem, ModelSpecChecks,
    ModelSpecProblem, APOLLO_BODY_NAME, APOLLO_FREEJOINT_NAME,
};
use apollo_core::plant::{begin_propulsion_step, PlantClock, StepRefusal, TickOverflow};
use apollo_core::propulsion::{invalid, ApolloPropulsionSpec, RcsCommand};
use apollo_core::timing::SimulationTiming;

#[test]
fn clock_steps_one_control_period_and_resets_to_zero() {
    let mut clock = PlantClock::new(SimulationTiming::apollo());
    assert_eq!(clock.ticks(), (0, 0));
    clock.advance().unwrap();
    assert_eq!(clock.ticks(), (1, 10));
    clock.advance().unwrap();
    let snapshot = clock.snapshot("state");
    assert_eq!((snapshot.control_tick, snapshot.physics_tick, snapshot.state), (2, 20, "state"));
    assert_eq!(snapshot.sim_time_ns(clock.timing()), 40_000_000);
    clock.reset();
    assert_eq!(clock.ticks(), (0, 0));
    assert_eq!(clock.timing(), SimulationTiming::apollo());
}

#[test]
fn clock_steps_keep_ticks_aligned() {
    let timing = SimulationTiming::new(1, u32::MAX);
    let mut clock = PlantClock::new(timing);
    for expected in 1..=5u64 {
        assert_eq!(clock.advance(), Ok(()));
        assert_eq!(clock.ticks(), (expected, expected * u32::MAX as u64));
    }
    let _: Result<(), TickOverflow> = clock.advance();
}

#[test]
fn model_names_are_non_empty_ascii_identifiers() {
    assert!(is_valid_model_name(APOLLO_BODY_NAME));
    assert!(is_valid_model_name(APOLLO_FREEJOINT_NAME));
    assert!(is_valid_model_name("lander-2.v_3"));
    assert!(!is_valid_model_name(""));
    assert!(!is_valid_model_name("apollo lander"));
    assert!(!is_valid_model_name("登月舱"));
    assert!(!is_valid_model_name("a\"b"));
}

fn all_good() -> ModelSpecChecks {
    ModelSpecChecks {
        mass_is_finite_and_positive: true,
        center_of_mass_is_finite: true,
        inertia_is_finite_and_positive: true,
        inertia_satisfies_triangle_inequalities: true,
    }
}

#[test]
fn model_spec_problems_come_in_order() {
    assert_eq!(check_model_spec("apollo_lander", all_good()), Ok(()));
    assert_eq!(check_model_spec("", all_good()), Err(ModelSpecProblem::InvalidName));
    assert_eq!(check_model_spec("apollo lander", all_good()), Err(ModelSpecProblem::InvalidName));
    let bad_mass = ModelSpecChecks { mass_is_finite_and_positive: false, inertia_is_finite_and_positive: false, ..all_good() };
    assert_eq!(check_model_spec("apollo_lander", bad_mass), Err(ModelSpecProblem::InvalidMass));
    let bad_com = ModelSpecChecks { center_of_mass_is_finite: false, ..all_good() };
    assert_eq!(check_model_spec("apollo_lander", bad_com), Err(ModelSpecProblem::InvalidCenterOfMass));
    let bad_inertia = ModelSpecChecks { inertia_is_finite_and_positive: false, inertia_satisfies_triangle_inequalities: false, ..all_good() };
    assert_eq!(check_model_spec("apollo_lander", bad_inertia), Err(ModelSpecProblem::InvalidInertia));
    let bad_triangle = ModelSpecChecks { inertia_satisfies_triangle_inequalities: false, ..all_good() };
    assert_eq!(check_model_spec("apollo_lander", bad_triangle), Err(ModelSpecProblem::InertiaTriangle));
    assert_eq!(ModelSpecProblem::InvalidMass.message(), "mass_kg must be finite and positive");
}

#[test]
fn collision_part_problems_come_in_order_with_the_part_name() {
    let good = CollisionPartChecks { transform_is_finite_with_positive_scale: true, rotation_is_unit: true, dimensions_are_valid: true };
    assert_eq!(check_collision_part("descent_stage", good), Ok(()));
    assert_eq!(check_collision_part("", good), Err(CollisionPartProblem::EmptyName));
    let bad = CollisionPartChecks { transform_is_finite_with_positive_scale: false, rotation_is_unit: false, dimensions_are_valid: false };
    assert_eq!(check_collision_part("foot", bad), Err(CollisionPartProblem::InvalidTransform));
    let bad_rotation = CollisionPartChecks { rotation_is_unit: false, dimensions_are_valid: false, ..good };
    assert_eq!(check_collision_part("foot", bad_rotation), Err(CollisionPartProblem::NonUnitRotation));
    let bad_shape = CollisionPartChecks { dimensions_are_valid: false, ..good };
    assert_eq!(check_collision_part("foot", bad_shape), Err(CollisionPartProblem::InvalidDimensions));
    assert_eq!(
        CollisionPartProblem::InvalidDimensions.message("foot_front_left"),
        "collision part 'foot_front_left': shape dimensions must be finite and positive"
    );
}

#[test]
fn propulsion_step_refusals_come_in_order_and_change_nothing() {
    let spec = ApolloPropulsionSpec::apollo11_touchdown();
    let mut clock = PlantClock::new(SimulationTiming::apollo());
    let mut request = [0_u64; 16];
    request[0] = 20_000_001;
    let overlong = RcsCommand::from_on_times(request);
    let bad_command = invalid("DPS gimbal components must be finite".to_string());
    let bad_engine = invalid("DPS specification is invalid".to_string());

    let refused = begin_propulsion_step(&mut clock, spec, overlong, [false; 16], Err(bad_command.clone()), Ok(()));
    assert_eq!(refused, Err(StepRefusal::InvalidCommand(bad_command)));
    assert_eq!(clock.ticks(), (0, 0));

    let refused = begin_propulsion_step(&mut clock, spec, overlong, [false; 16], Ok(()), Err(bad_engine.clone()));
    match refused {
        Err(StepRefusal::InvalidCommand(error)) => {
            assert_eq!(error.message(), "RCS 'A1U' requests 20000001 ns, longer than control step 20000000 ns")
        }
        other => panic!("unexpected outcome: {other:?}"),
    }
    assert_eq!(clock.ticks(), (0, 0));

    request[0] = 7_000_000;
    let pulse = RcsCommand::from_on_times(request);
    let refused = begin_propulsion_step(&mut clock, spec, pulse, [false; 16], Ok(()), Err(bad_engine.clone()));
    assert_eq!(refused, Err(StepRefusal::InvalidCommand(bad_engine)));
    assert_eq!(clock.ticks(), (0, 0));

    let applied = begin_propulsion_step(&mut clock, spec, pulse, [false; 16], Ok(()), Ok(())).unwrap();
    assert_eq!(applied[0], 14_000_000);
    assert_eq!(applied[1], 0);
    assert_eq!(clock.ticks(), (1, 10));
}
