//! The fatal startup errors and their diagnostic lines. Every error here
//! terminates startup; none is recovered from.

use vstd::prelude::*;
use vstd::string::StringExecFns;

verus! {

/// The windowing sub-step at which initialization failed.
#[derive(Clone, Copy, PartialEq, Eq, Structural, Debug)]
pub enum WindowStage {
    Context,
    Video,
    WindowBuild,
    EventPump,
}

/// A fatal startup error. Each terminates the process with a non-zero status
/// after one diagnostic line on standard error.
#[derive(Clone, Copy, PartialEq, Eq, Structural, Debug)]
pub enum StartupError {
    /// The command line could not be parsed.
    ArgParse,
    /// The working directory could not be queried or canonicalized.
    Environment,
    /// No candidate directory held the sentinel file.
    DataPathNotFound,
    /// The logging collaborator refused to initialize.
    LoggingInit,
    /// The windowing collaborator failed at the named sub-step.
    WindowingInit(WindowStage),
}

/// The diagnostic line for each fatal startup error.
pub open spec fn message_of(e: StartupError) -> Seq<char> {
    match e {
        StartupError::ArgParse => "malformed command line"@,
        StartupError::Environment => "unable to query or canonicalize the current working directory"@,
        StartupError::DataPathNotFound => "no data path specified and no 'data' folder found in the current directory"@,
        StartupError::LoggingInit => "unable to initialize logging"@,
        StartupError::WindowingInit(s) => match s {
            WindowStage::Context => "unable to initialize sdl context"@,
            WindowStage::Video => "unable to initialize video subsystem"@,
            WindowStage::WindowBuild => "unable to initialize window"@,
            WindowStage::EventPump => "unable to initialize event pump"@,
        },
    }
}

impl StartupError {
    /// The single diagnostic line reported for this error.
    pub fn message(&self) -> (r: String)
        ensures
            r@ == message_of(*self),
    {
        match self {
            StartupError::ArgParse => String::from_str("malformed command line"),
            StartupError::Environment => String::from_str(
                "unable to query or canonicalize the current working directory",
            ),
            StartupError::DataPathNotFound => String::from_str(
                "no data path specified and no 'data' folder found in the current directory",
            ),
            StartupError::LoggingInit => String::from_str("unable to initialize logging"),
            StartupError::WindowingInit(s) => match s {
                WindowStage::Context => String::from_str("unable to initialize sdl context"),
                WindowStage::Video => String::from_str("unable to initialize video subsystem"),
                WindowStage::WindowBuild => String::from_str("unable to initialize window"),
                WindowStage::EventPump => String::from_str("unable to initialize event pump"),
            },
        }
    }
}

} // verus!
