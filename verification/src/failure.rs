//! The ways in which a build step comes to nothing. Each of them ends the build at hand:
//! nothing is tried again.

use vstd::prelude::*;
use crate::execution::{CmdOutcome, SpawnFailure};
use crate::derivation::DerivationError;
use crate::sandbox::ConfigError;

verus! {

/// Why a build step came to nothing.
#[derive(Clone, Copy, Debug, PartialEq, Eq, Structural)]
pub enum Failure {
    /// The step was not fully described; no process was started.
    Configuration,
    /// A tool that the step needs is not installed on the host.
    ToolMissing,
    /// The host path of the dependency at `index` could not be made a mount; no sandbox
    /// was set up from the others.
    Resolution { index: usize },
    /// The system refused to start a process.
    Spawn,
    /// A process ended otherwise than with exit code zero; `code` is what it left.
    NonZeroExit { code: Option<i32> },
}

impl From<ConfigError> for Failure {
    fn from(error: ConfigError) -> (failure: Failure) {
        Failure::Configuration
    }
}

impl vstd::std_specs::convert::FromSpecImpl<ConfigError> for Failure {
    open spec fn obeys_from_spec() -> bool {
        true
    }

    open spec fn from_spec(error: ConfigError) -> Failure {
        Failure::Configuration
    }
}

impl From<DerivationError> for Failure {
    fn from(error: DerivationError) -> (failure: Failure) {
        Failure::Resolution { index: error.index() }
    }
}

impl vstd::std_specs::convert::FromSpecImpl<DerivationError> for Failure {
    open spec fn obeys_from_spec() -> bool {
        true
    }

    open spec fn from_spec(error: DerivationError) -> Failure {
        Failure::Resolution { index: error.at() }
    }
}

impl CmdOutcome {
    /// What went wrong in a run that ended like this, if anything did. The exit code is
    /// handed on as the process left it.
    pub open spec fn failure_of(self) -> Option<Failure> {
        match self {
            CmdOutcome::Exited { code } => if code == Some(0i32) {
                None
            } else {
                Some(Failure::NonZeroExit { code })
            },
            CmdOutcome::SpawnFailed { failure: SpawnFailure::NotFound } => Some(
                Failure::ToolMissing,
            ),
            CmdOutcome::SpawnFailed { failure: SpawnFailure::Other } => Some(Failure::Spawn),
        }
    }

    /// What went wrong in a run that ended like this, if anything did.
    pub fn failure(self) -> (failure: Option<Failure>)
        ensures
            failure == self.failure_of(),
            failure is None <==> self.success(),
    {
        match self {
            CmdOutcome::Exited { code: Some(0) } => None,
            CmdOutcome::Exited { code } => Some(Failure::NonZeroExit { code }),
            CmdOutcome::SpawnFailed { failure: SpawnFailure::NotFound } => Some(
                Failure::ToolMissing,
            ),
            CmdOutcome::SpawnFailed { failure: SpawnFailure::Other } => Some(Failure::Spawn),
        }
    }
}

} // verus!
