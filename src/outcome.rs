use vstd::prelude::*;

verus! {

/// How a run of the tool ended, as observed by whoever started it.
#[derive(Debug, Clone, Copy, PartialEq, Eq, Structural)]
pub enum RunOutcome {
    /// The process could not be started.
    LaunchFailed,
    /// The process exited normally with this code.
    Exited(i32),
    /// The process was terminated by a signal.
    Signalled,
}

impl RunOutcome {
    pub open spec fn is_success(self) -> bool {
        self == RunOutcome::Exited(0)
    }
}

} // verus!
