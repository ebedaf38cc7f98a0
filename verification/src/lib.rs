//! Integer timing, RCS command, telemetry and demo bookkeeping for an Apollo-style plant.

pub mod actuator;
pub mod capture;
pub mod cli;
pub mod combinations;
pub mod demo_controls;
pub mod demo_session;
pub mod jsonl;
pub mod model;
pub mod plant;
pub mod propulsion;
pub mod run_control;
pub mod text;
pub mod timing;
pub mod trajectory;

pub use timing::{APOLLO_PHYSICS_STEP_NS, APOLLO_SUBSTEPS_PER_CONTROL, SimulationTiming};
