//! Command lines of the replay and model viewer programs, as lists of arguments after the
//! program name.

use vstd::prelude::*;

verus! {

/// What is wrong with a command line.
#[derive(Clone, Copy, Debug, PartialEq, Eq, Structural)]
pub enum ArgumentError {
    /// The replay needs a trajectory path.
    MissingTrajectory,
    /// `--validate-only` must be followed by a trajectory path.
    MissingTrajectoryAfterValidateOnly,
    /// The replay takes exactly one trajectory path.
    ExtraReplayArguments,
    /// The model viewer takes nothing or `--capture-all <directory>`.
    UnknownViewerArgument,
    /// `--capture-all` must be followed by a directory.
    MissingCaptureDirectory,
    /// The model viewer takes nothing after the capture directory.
    ExtraViewerArguments,
}

/// The message shown to the user for `error`.
pub open spec fn argument_error_message(error: ArgumentError) -> Seq<char> {
    match error {
        ArgumentError::MissingTrajectory => "用法: apollo-replay [--validate-only] <trajectory.jsonl>"@,
        ArgumentError::MissingTrajectoryAfterValidateOnly => "--validate-only 后必须提供轨迹文件路径"@,
        ArgumentError::ExtraReplayArguments => "apollo-replay 只接受一个轨迹文件路径"@,
        ArgumentError::UnknownViewerArgument => "用法: apollo-model-viewer [--capture-all <输出目录>]"@,
        ArgumentError::MissingCaptureDirectory => "--capture-all 后必须提供输出目录"@,
        ArgumentError::ExtraViewerArguments => "apollo-model-viewer 不接受更多参数"@,
    }
}

impl ArgumentError {
    /// The message shown to the user.
    pub fn message(self) -> (message: &'static str)
        ensures
            message@ == argument_error_message(self),
    {
        match self {
            ArgumentError::MissingTrajectory => "用法: apollo-replay [--validate-only] <trajectory.jsonl>",
            ArgumentError::MissingTrajectoryAfterValidateOnly => "--validate-only 后必须提供轨迹文件路径",
            ArgumentError::ExtraReplayArguments => "apollo-replay 只接受一个轨迹文件路径",
            ArgumentError::UnknownViewerArgument => "用法: apollo-model-viewer [--capture-all <输出目录>]",
            ArgumentError::MissingCaptureDirectory => "--capture-all 后必须提供输出目录",
            ArgumentError::ExtraViewerArguments => "apollo-model-viewer 不接受更多参数",
        }
    }
}

/// What the replay was asked to do.
#[derive(Clone, Debug, PartialEq, Eq)]
pub struct ReplayArguments {
    pub path: String,
    /// Check the trajectory and print its summary without opening a window.
    pub validate_only: bool,
}

/// What the model viewer was asked to do.
#[derive(Clone, Debug, PartialEq, Eq)]
pub struct ModelViewerOptions {
    /// Save every fixed view to this directory and quit, instead of staying interactive.
    pub capture_directory: Option<String>,
}

/// The replay flag that skips the window.
pub open spec fn validate_only_flag() -> Seq<char> {
    seq!['-', '-', 'v', 'a', 'l', 'i', 'd', 'a', 't', 'e', '-', 'o', 'n', 'l', 'y']
}

/// The model viewer flag that saves every view.
pub open spec fn capture_all_flag() -> Seq<char> {
    seq!['-', '-', 'c', 'a', 'p', 't', 'u', 'r', 'e', '-', 'a', 'l', 'l']
}

/// The replay command line `[--validate-only] <trajectory>`, read as (path, validate only).
pub open spec fn replay_arguments_spec(arguments: Seq<Seq<char>>) -> Result<(Seq<char>, bool), ArgumentError> {
    if arguments.len() == 0 {
        Err(ArgumentError::MissingTrajectory)
    } else if arguments[0] == validate_only_flag() {
        if arguments.len() == 1 {
            Err(ArgumentError::MissingTrajectoryAfterValidateOnly)
        } else if arguments.len() == 2 {
            Ok((arguments[1], true))
        } else {
            Err(ArgumentError::ExtraReplayArguments)
        }
    } else if arguments.len() == 1 {
        Ok((arguments[0], false))
    } else {
        Err(ArgumentError::ExtraReplayArguments)
    }
}

/// The model viewer command line, empty or `--capture-all <directory>`, read as the capture
/// directory if any.
pub open spec fn model_viewer_arguments_spec(arguments: Seq<Seq<char>>) -> Result<Option<Seq<char>>, ArgumentError> {
    if arguments.len() == 0 {
        Ok(None)
    } else if arguments[0] != capture_all_flag() {
        Err(ArgumentError::UnknownViewerArgument)
    } else if arguments.len() == 1 {
        Err(ArgumentError::MissingCaptureDirectory)
    } else if arguments.len() == 2 {
        Ok(Some(arguments[1]))
    } else {
        Err(ArgumentError::ExtraViewerArguments)
    }
}

/// Whether `argument` is the flag whose characters are `flag`.
fn is_flag(argument: &String, flag: &str) -> (same: bool)
    ensures
        same == (argument@ == flag@),
{
    let flag = String::from_str(flag);
    *argument == flag
}

/// Reads the replay command line.
pub fn parse_replay_arguments(arguments: &Vec<String>) -> (parsed: Result<ReplayArguments, ArgumentError>)
    ensures
        match (parsed, replay_arguments_spec(arguments@.map_values(|a: String| a@))) {
            (Ok(parsed), Ok((path, validate_only))) => parsed.path@ == path && parsed.validate_only == validate_only,
            (Err(error), Err(expected)) => error == expected,
            _ => false,
        },
{
    let ghost views = arguments@.map_values(|a: String| a@);
    if arguments.len() == 0 {
        return Err(ArgumentError::MissingTrajectory);
    }
    proof {
        reveal_strlit("--validate-only");
        assert("--validate-only"@ =~= validate_only_flag());
        assert(views[0] == arguments@[0]@);
    }
    if is_flag(&arguments[0], "--validate-only") {
        if arguments.len() == 1 {
            Err(ArgumentError::MissingTrajectoryAfterValidateOnly)
        } else if arguments.len() == 2 {
            proof {
                assert(views[1] == arguments@[1]@);
            }
            Ok(ReplayArguments { path: arguments[1].clone(), validate_only: true })
        } else {
            Err(ArgumentError::ExtraReplayArguments)
        }
    } else if arguments.len() == 1 {
        Ok(ReplayArguments { path: arguments[0].clone(), validate_only: false })
    } else {
        Err(ArgumentError::ExtraReplayArguments)
    }
}

/// Reads the model viewer command line.
pub fn parse_model_viewer_arguments(arguments: &Vec<String>) -> (parsed: Result<ModelViewerOptions, ArgumentError>)
    ensures
        match (parsed, model_viewer_arguments_spec(arguments@.map_values(|a: String| a@))) {
            (Ok(parsed), Ok(directory)) => match (parsed.capture_directory, directory) {
                (Some(given), Some(expected)) => given@ == expected,
                (None, None) => true,
                _ => false,
            },
            (Err(error), Err(expected)) => error == expected,
            _ => false,
        },
{
    let ghost views = arguments@.map_values(|a: String| a@);
    if arguments.len() == 0 {
        return Ok(ModelViewerOptions { capture_directory: None });
    }
    proof {
        reveal_strlit("--capture-all");
        assert("--capture-all"@ =~= capture_all_flag());
        assert(views[0] == arguments@[0]@);
    }
    if !is_flag(&arguments[0], "--capture-all") {
        Err(ArgumentError::UnknownViewerArgument)
    } else if arguments.len() == 1 {
        Err(ArgumentError::MissingCaptureDirectory)
    } else if arguments.len() == 2 {
        proof {
            assert(views[1] == arguments@[1]@);
        }
        Ok(ModelViewerOptions { capture_directory: Some(arguments[1].clone()) })
    } else {
        Err(ArgumentError::ExtraViewerArguments)
    }
}

} // verus!
