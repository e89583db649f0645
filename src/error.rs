use vstd::prelude::*;

verus! {

/// Errors of the profile engine.
#[derive(Debug, PartialEq, Eq)]
pub enum Error {
    /// An `enable` or `disable` command exited unsuccessfully.
    CommandFailure { code: i32, message: String },
    /// A command template could not be interpolated.
    Format { message: String },
    /// The environment is not defined for the profile.
    InvalidEnvironment { environment: String, profile: String },
    /// A command could not be spawned or its output could not be captured.
    Io { message: String },
    /// The `can_enable` check failed or could not run.
    ProfileRequirementsNotMet { message: String },
    /// Command output is not valid UTF-8.
    Utf8 { message: String },
    /// No profile has the requested name or alias.
    UnknownProfile { name: String, known: Vec<String> },
    /// A dependency names no configured profile.
    UnknownDependency { profile: String, dependency: String },
    /// The same name or alias is used by more than one profile.
    DuplicateName { name: String },
    /// A profile argument is not of the form `key=value`.
    InvalidArgument { argument: String },
}

} // verus!
