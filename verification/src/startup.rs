//! The start of the app server in worker mode, step by step.

use crate::message;
use crate::text::join;
use vstd::prelude::*;

verus! {

/// A step of the start. The caller performs it and tells how it went.
#[derive(Debug, Clone, Copy, PartialEq, Eq, Structural)]
pub enum StartupStep {
    /// Read the settings given on the command line.
    ParseOverrides,
    /// Load the configuration a first time, to find out what the cloud requires.
    Preload,
    /// Load the configuration with what the cloud requires, if that is known.
    Load { cloud_requirements: bool },
    /// Load the configuration that is used where there is no other.
    LoadDefault,
    /// Run the worker.
    Serve,
    /// Nothing is left to do.
    Done,
}

/// What kind of error ended the start.
#[derive(Debug, Clone, Copy, PartialEq, Eq, Structural)]
pub enum StartupErrorKind {
    InvalidInput,
    InvalidData,
    Other,
}

/// The error that ended the start.
#[derive(Debug)]
pub struct StartupError {
    pub kind: StartupErrorKind,
    pub message: String,
}

impl StartupStep {
    /// The step after this one, or the error that ends the start.
    pub open spec fn after(self, failure: Option<Seq<char>>) -> Result<
        StartupStep,
        (StartupErrorKind, Seq<char>),
    > {
        match (self, failure) {
            (StartupStep::ParseOverrides, None) => Ok(StartupStep::Preload),
            (StartupStep::ParseOverrides, Some(text)) => Err(
                (StartupErrorKind::InvalidInput, "error parsing -c overrides: "@ + text),
            ),
            (StartupStep::Preload, None) => Ok(StartupStep::Load { cloud_requirements: true }),
            (StartupStep::Preload, Some(_)) => Ok(StartupStep::Load { cloud_requirements: false }),
            (StartupStep::Load { .. }, None) => Ok(StartupStep::Serve),
            (StartupStep::Load { .. }, Some(_)) => Ok(StartupStep::LoadDefault),
            (StartupStep::LoadDefault, None) => Ok(StartupStep::Serve),
            (StartupStep::LoadDefault, Some(text)) => Err(
                (StartupErrorKind::InvalidData, "error loading default config: "@ + text),
            ),
            (StartupStep::Serve, None) => Ok(StartupStep::Done),
            (StartupStep::Serve, Some(text)) => Err(
                (StartupErrorKind::Other, "worker error: "@ + text),
            ),
            (StartupStep::Done, _) => Ok(StartupStep::Done),
        }
    }

    /// How many steps can still follow.
    pub open spec fn left(self) -> nat {
        match self {
            StartupStep::ParseOverrides => 5,
            StartupStep::Preload => 4,
            StartupStep::Load { .. } => 3,
            StartupStep::LoadDefault => 2,
            StartupStep::Serve => 1,
            StartupStep::Done => 0,
        }
    }
}

/// Tells how a step went, and which step follows.
///
/// Without the configuration that was asked for, the one for want of another is used.
/// A configuration that could not be loaded the first time only means that nothing is
/// known of what the cloud requires.
pub fn run_worker_mode(step: StartupStep, failure: Option<String>) -> (r: Result<
    StartupStep,
    StartupError,
>)
    ensures
        match step.after(message::text_view(failure)) {
            Ok(next) => r matches Ok(given) && given == next,
            Err((kind, text)) => r matches Err(error) && error.kind == kind && error.message@
                == text,
        },
{
    match (step, failure) {
        (StartupStep::ParseOverrides, None) => Ok(StartupStep::Preload),
        (StartupStep::ParseOverrides, Some(text)) => Err(
            StartupError {
                kind: StartupErrorKind::InvalidInput,
                message: join("error parsing -c overrides: ", text.as_str()),
            },
        ),
        (StartupStep::Preload, None) => Ok(StartupStep::Load { cloud_requirements: true }),
        (StartupStep::Preload, Some(_)) => Ok(StartupStep::Load { cloud_requirements: false }),
        (StartupStep::Load { .. }, None) => Ok(StartupStep::Serve),
        (StartupStep::Load { .. }, Some(_)) => Ok(StartupStep::LoadDefault),
        (StartupStep::LoadDefault, None) => Ok(StartupStep::Serve),
        (StartupStep::LoadDefault, Some(text)) => Err(
            StartupError {
                kind: StartupErrorKind::InvalidData,
                message: join("error loading default config: ", text.as_str()),
            },
        ),
        (StartupStep::Serve, None) => Ok(StartupStep::Done),
        (StartupStep::Serve, Some(text)) => Err(
            StartupError {
                kind: StartupErrorKind::Other,
                message: join("worker error: ", text.as_str()),
            },
        ),
        (StartupStep::Done, _) => Ok(StartupStep::Done),
    }
}

/// The path of the managed configuration that a debug build takes from the
/// environment. An empty value is as good as none.
pub fn managed_config_path_from_debug_env(debug_build: bool, value: Option<String>) -> (r: Option<
    String,
>)
    ensures
        r == (match value {
            Some(path) => if debug_build && path@.len() > 0 {
                Some(path)
            } else {
                None
            },
            None => None,
        }),
{
    if !debug_build {
        return None;
    }
    match value {
        Some(path) => if path.as_str().is_empty() {
            None
        } else {
            Some(path)
        },
        None => None,
    }
}

/// The start ends: each step leaves fewer to follow.
pub proof fn law_startup_ends(step: StartupStep, failure: Option<Seq<char>>)
    requires
        step != StartupStep::Done,
    ensures
        step.after(failure) matches Ok(next) ==> next.left() < step.left(),
{
}

/// A configuration that cannot be loaded does not end the start while there is another
/// one to try.
pub proof fn law_config_failures_are_survived(step: StartupStep, failure: Option<Seq<char>>)
    requires
        step == StartupStep::Preload || step is Load,
    ensures
        step.after(failure) is Ok,
{
}

/// The steps follow one another: the settings, the configuration a first time, with what
/// the cloud requires or without it, the configuration, or the one for want of another,
/// the worker. Only the settings, the configuration for want of another and the worker can
/// end the start, and then the whole reason is told.
pub proof fn law_steps_follow_one_another(known: bool, reason: Seq<char>)
    ensures
        StartupStep::ParseOverrides.after(None) == Ok::<_, (StartupErrorKind, Seq<char>)>(
            StartupStep::Preload,
        ),
        StartupStep::Preload.after(None) == Ok::<_, (StartupErrorKind, Seq<char>)>(
            StartupStep::Load { cloud_requirements: true },
        ),
        StartupStep::Preload.after(Some(reason)) == Ok::<_, (StartupErrorKind, Seq<char>)>(
            StartupStep::Load { cloud_requirements: false },
        ),
        (StartupStep::Load { cloud_requirements: known }).after(None) == Ok::<
            _,
            (StartupErrorKind, Seq<char>),
        >(StartupStep::Serve),
        (StartupStep::Load { cloud_requirements: known }).after(Some(reason)) == Ok::<
            _,
            (StartupErrorKind, Seq<char>),
        >(StartupStep::LoadDefault),
        StartupStep::LoadDefault.after(None) == Ok::<_, (StartupErrorKind, Seq<char>)>(
            StartupStep::Serve,
        ),
        StartupStep::Serve.after(None) == Ok::<_, (StartupErrorKind, Seq<char>)>(
            StartupStep::Done,
        ),
        StartupStep::Done.after(None) == Ok::<_, (StartupErrorKind, Seq<char>)>(StartupStep::Done),
        StartupStep::Done.after(Some(reason)) == Ok::<_, (StartupErrorKind, Seq<char>)>(
            StartupStep::Done,
        ),
        StartupStep::ParseOverrides.after(Some(reason)) == Err::<StartupStep, _>(
            (StartupErrorKind::InvalidInput, "error parsing -c overrides: "@ + reason),
        ),
        StartupStep::LoadDefault.after(Some(reason)) == Err::<StartupStep, _>(
            (StartupErrorKind::InvalidData, "error loading default config: "@ + reason),
        ),
        StartupStep::Serve.after(Some(reason)) == Err::<StartupStep, _>(
            (StartupErrorKind::Other, "worker error: "@ + reason),
        ),
{
}

} // verus!
