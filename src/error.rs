use vstd::prelude::*;

verus! {

/// Every way in which finding, querying or driving the tool can fail.
#[derive(Debug, Clone, Copy, PartialEq, Eq, Structural)]
pub enum MesonError {
    /// The executable could not be started (not found, not executable).
    ProcessLaunchError,
    /// The version query exited normally with a non-zero code.
    ToolExitedUnsuccessfully(i32),
    /// The configure step exited normally with a non-zero code.
    ConfiguredUnsuccessfully(i32),
    /// The build step exited normally with a non-zero code.
    BuildUnsuccessfully(i32),
    /// The install step exited normally with a non-zero code.
    InstallUnsuccessfully(i32),
    /// A step was terminated by a signal; no exit code is available.
    ToolExitedBySignal,
    /// The version query printed bytes that are not UTF-8.
    InvalidUtf8,
    /// The version query printed text that is not a semantic version.
    VersionParseError,
    /// A directory of the build layout could not be created.
    DirectoryCreationError,
}

} // verus!
