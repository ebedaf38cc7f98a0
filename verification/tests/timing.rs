use apollo_core::timing::{
    APOLLO_CONTROLLER_TIMESTEP_MICROS, APOLLO_CONTROL_HOLD_STEPS, APOLLO_MUJOCO_TIMESTEP_MICROS,
    SimulationTiming,
};
use apollo_core::trajectory::PlantSnapshot;

#[test]
fn controller_timestep_matches_mujoco_hold_steps() {
    assert_eq!(APOLLO_MUJOCO_TIMESTEP_MICROS, 2_000);
    assert_eq!(APOLLO_CONTROL_HOLD_STEPS, 10);
    let controller_timestep_secs = APOLLO_CONTROLLER_TIMESTEP_MICROS as f32 / 1_000_000.0;
    assert!((controller_timestep_secs - 0.020).abs() < 1e-6);
}

#[test]
fn apollo_timing_derives_control_period_from_integer_values() {
    let timing = SimulationTiming::apollo();
    assert_eq!(timing.physics_step_ns(), 2_000_000);
    assert_eq!(timing.substeps_per_control(), 10);
    assert_eq!(timing.control_step_ns(), 20_000_000);
    assert_eq!(timing.physics_ticks_for_control_ticks(7), Some(70));
    let physics_step_seconds = timing.physics_step_ns() as f64 * 1.0e-9;
    let control_step_seconds = timing.control_step_ns() as f64 * 1.0e-9;
    let sim_time_seconds = timing.sim_time_ns(70) as f64 * 1.0e-9;
    assert!((physics_step_seconds - 0.002).abs() < f64::EPSILON);
    assert!((control_step_seconds - 0.020).abs() < f64::EPSILON);
    assert!((sim_time_seconds - 0.140).abs() < f64::EPSILON);
}

#[test]
fn raw_constructor_rejects_zero_values() {
    assert_eq!(SimulationTiming::from_raw(0, 10), None);
    assert_eq!(SimulationTiming::from_raw(2_000_000, 0), None);
}

#[test]
fn tick_conversion_reports_overflow() {
    let timing = SimulationTiming::from_raw(1, 2).unwrap();
    assert_eq!(timing.physics_ticks_for_control_ticks(u64::MAX), None);
}

#[test]
fn snapshot_time_is_derived_from_physics_tick() {
    let snapshot = PlantSnapshot {
        state: (),
        control_tick: 3,
        physics_tick: 30,
    };
    assert_eq!(snapshot.sim_time_ns(SimulationTiming::apollo()), 60_000_000);
    let seconds = snapshot.sim_time_ns(SimulationTiming::apollo()) as f64 * 1.0e-9;
    assert!((seconds - 0.06).abs() < f64::EPSILON);
}

#[test]
fn default_timing_is_the_apollo_baseline() {
    assert_eq!(SimulationTiming::default(), SimulationTiming::apollo());
    let custom = SimulationTiming::new(1_000_000, 4);
    assert_eq!(custom.control_step_ns(), 4_000_000);
    assert_eq!(SimulationTiming::from_raw(1_000_000, 4), Some(custom));
}

#[test]
fn control_step_of_extreme_timing_needs_128_bits() {
    let timing = SimulationTiming::new(u64::MAX, u32::MAX);
    assert_eq!(timing.control_step_ns(), u64::MAX as u128 * u32::MAX as u128);
    assert_eq!(timing.sim_time_ns(u64::MAX), u64::MAX as u128 * u64::MAX as u128);
}

#[test]
fn control_ticks_span_whole_control_periods() {
    let timing = SimulationTiming::new(3, 7);
    let physics_tick = timing.physics_ticks_for_control_ticks(5).unwrap();
    assert_eq!(physics_tick, 35);
    assert_eq!(timing.sim_time_ns(physics_tick), 5 * timing.control_step_ns());
}
