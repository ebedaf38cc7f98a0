use apollo_core::cli::{parse_model_viewer_arguments, parse_replay_arguments, ArgumentError};

fn args(values: &[&str]) -> Vec<String> {
    values.iter().map(|value| value.to_string()).collect()
}

#[test]
fn parses_replay_and_headless_validation_modes() {
    let replay = parse_replay_arguments(&args(&["run.jsonl"])).unwrap();
    assert_eq!(replay.path, "run.jsonl");
    assert!(!replay.validate_only);

    let validation = parse_replay_arguments(&args(&["--validate-only", "run.jsonl"])).unwrap();
    assert_eq!(validation.path, "run.jsonl");
    assert!(validation.validate_only);
}

#[test]
fn replay_arguments_report_each_mistake() {
    assert_eq!(parse_replay_arguments(&args(&[])), Err(ArgumentError::MissingTrajectory));
    assert_eq!(
        parse_replay_arguments(&args(&["--validate-only"])),
        Err(ArgumentError::MissingTrajectoryAfterValidateOnly)
    );
    assert_eq!(parse_replay_arguments(&args(&["a.jsonl", "b.jsonl"])), Err(ArgumentError::ExtraReplayArguments));
    assert_eq!(
        parse_replay_arguments(&args(&["--validate-only", "a.jsonl", "b.jsonl"])),
        Err(ArgumentError::ExtraReplayArguments)
    );
    assert_eq!(
        ArgumentError::MissingTrajectory.message(),
        "用法: apollo-replay [--validate-only] <trajectory.jsonl>"
    );
}

#[test]
fn capture_all_argument_is_explicit_and_keeps_interactive_default() {
    assert!(parse_model_viewer_arguments(&args(&[])).unwrap().capture_directory.is_none());
    let parsed = parse_model_viewer_arguments(&args(&["--capture-all", "qa-output"])).unwrap();
    assert_eq!(parsed.capture_directory, Some("qa-output".to_string()));
    assert!(parse_model_viewer_arguments(&args(&["--capture-all"])).is_err());
    assert!(parse_model_viewer_arguments(&args(&["--unknown"])).is_err());
}

#[test]
fn model_viewer_arguments_report_each_mistake() {
    assert_eq!(parse_model_viewer_arguments(&args(&["--unknown"])), Err(ArgumentError::UnknownViewerArgument));
    assert_eq!(parse_model_viewer_arguments(&args(&["--capture-all"])), Err(ArgumentError::MissingCaptureDirectory));
    assert_eq!(
        parse_model_viewer_arguments(&args(&["--capture-all", "a", "b"])),
        Err(ArgumentError::ExtraViewerArguments)
    );
}

