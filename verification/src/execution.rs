//! The course of a build: which command runs next, and when the build is over.
//!
//! Running a command is left to the caller. The caller asks which command is due,
//! runs it, and reports how it ended; the state then says what follows.

use vstd::prelude::*;
use crate::project::{BuildCmd, BuildProcess, SourceProject};

verus! {

/// Why a process could not be created.
#[derive(Clone, Copy, Debug, PartialEq, Eq, Structural)]
pub enum SpawnFailure {
    /// The program was not found on the host.
    NotFound,
    /// Any other refusal of the system.
    Other,
}

/// How the run of one command ended.
#[derive(Clone, Copy, Debug, PartialEq, Eq, Structural)]
pub enum CmdOutcome {
    /// The process ran and ended; `code` is its exit code, if it left one.
    Exited { code: Option<i32> },
    /// The process never started.
    SpawnFailed { failure: SpawnFailure },
}

impl CmdOutcome {
    /// A command succeeds only by exiting with code zero.
    pub open spec fn success(self) -> bool {
        self == (CmdOutcome::Exited { code: Some(0i32) })
    }

    /// Whether the command succeeded.
    pub fn succeeded(&self) -> (ok: bool)
        ensures
            ok == self.success(),
    {
        match self {
            CmdOutcome::Exited { code: Some(code) } => *code == 0,
            _ => false,
        }
    }
}

/// Where a build stands.
#[derive(Clone, Copy, Debug, PartialEq, Eq, Structural)]
pub enum BuildState {
    /// The command at `next` is due; all before it succeeded.
    Running { next: usize },
    /// Every command succeeded.
    Succeeded,
    /// The command at `index` ended with `outcome`, and no command ran after it.
    Failed { index: usize, outcome: CmdOutcome },
}

/// Where a build of `len` commands stands before any of them ran.
pub open spec fn start(len: nat) -> BuildState {
    if len == 0 {
        BuildState::Succeeded
    } else {
        BuildState::Running { next: 0 }
    }
}

/// Where a build of `len` commands stands once the command that was due in `state`
/// ended with `outcome`. A build that is over stays as it is.
pub open spec fn step(len: nat, state: BuildState, outcome: CmdOutcome) -> BuildState {
    match state {
        BuildState::Running { next } => {
            if !outcome.success() {
                BuildState::Failed { index: next, outcome }
            } else if next + 1 < len {
                BuildState::Running { next: (next + 1) as usize }
            } else {
                BuildState::Succeeded
            }
        },
        _ => state,
    }
}

/// Where a build of `len` commands stands after the outcomes in `outcomes` were
/// reported one by one.
pub open spec fn run(len: nat, outcomes: Seq<CmdOutcome>) -> BuildState
    decreases outcomes.len(),
{
    if outcomes.len() == 0 {
        start(len)
    } else {
        step(len, run(len, outcomes.drop_last()), outcomes.last())
    }
}

impl BuildState {
    /// The index of the command that is due, if one is.
    pub open spec fn due(self, len: nat) -> Option<int> {
        match self {
            BuildState::Running { next } if next < len => Some(next as int),
            _ => None,
        }
    }
}

impl BuildProcess {
    /// Where the build stands before any command ran.
    pub fn start(&self) -> (state: BuildState)
        ensures
            state == start(self@.len()),
    {
        match self {
            BuildProcess::Cmds(cmds) => {
                if cmds.len() == 0 {
                    BuildState::Succeeded
                } else {
                    BuildState::Running { next: 0 }
                }
            },
        }
    }

    /// The command to run in `state`, if the build is not over.
    pub fn command(&self, state: &BuildState) -> (cmd: Option<&BuildCmd>)
        ensures
            match state.due(self@.len()) {
                Some(next) => cmd is Some && cmd->0@ == self@[next],
                None => cmd is None,
            },
    {
        match self {
            BuildProcess::Cmds(cmds) => match state {
                BuildState::Running { next } => {
                    if *next < cmds.len() {
                        Some(&cmds[*next])
                    } else {
                        None
                    }
                },
                _ => None,
            },
        }
    }

    /// Where the build stands once the command that was due in `state` ended with
    /// `outcome`.
    pub fn advance(&self, state: BuildState, outcome: CmdOutcome) -> (after: BuildState)
        ensures
            after == step(self@.len(), state, outcome),
    {
        match self {
            BuildProcess::Cmds(cmds) => match state {
                BuildState::Running { next } => {
                    if !outcome.succeeded() {
                        BuildState::Failed { index: next, outcome }
                    } else if next < cmds.len() && next + 1 < cmds.len() {
                        BuildState::Running { next: next + 1 }
                    } else {
                        BuildState::Succeeded
                    }
                },
                _ => state,
            },
        }
    }

    /// The command that made the build fail, if it failed.
    pub fn culprit(&self, state: &BuildState) -> (cmd: Option<&BuildCmd>)
        ensures
            match *state {
                BuildState::Failed { index, .. } if index < self@.len() => cmd is Some
                    && cmd->0@ == self@[index as int],
                _ => cmd is None,
            },
    {
        match self {
            BuildProcess::Cmds(cmds) => match state {
                BuildState::Failed { index, .. } => {
                    if *index < cmds.len() {
                        Some(&cmds[*index])
                    } else {
                        None
                    }
                },
                _ => None,
            },
        }
    }
}

impl SourceProject {
    /// Begins a build of this project: where it stands before any command ran.
    pub fn build(&self) -> (state: BuildState)
        ensures
            state == start(self@.build.len()),
    {
        self.build_process().start()
    }
}

/// While every command succeeds the build moves on by one command at a time, and it
/// is over as soon as the last one has succeeded.
pub proof fn lemma_run_of_successes(len: nat, outcomes: Seq<CmdOutcome>)
    requires
        len <= usize::MAX,
        outcomes.len() <= len,
        forall|j: int| 0 <= j < outcomes.len() ==> (#[trigger] outcomes[j]).success(),
    ensures
        outcomes.len() < len ==> run(len, outcomes) == (BuildState::Running {
            next: outcomes.len() as usize,
        }),
        outcomes.len() == len ==> run(len, outcomes) == BuildState::Succeeded,
    decreases outcomes.len(),
{
    if outcomes.len() > 0 {
        lemma_run_of_successes(len, outcomes.drop_last());
    }
}

/// A build that is over stays as it is, whatever is reported to it.
pub proof fn lemma_run_stays_over(len: nat, outcomes: Seq<CmdOutcome>, upto: int)
    requires
        0 <= upto <= outcomes.len(),
        !(run(len, outcomes.take(upto)) is Running),
    ensures
        run(len, outcomes) == run(len, outcomes.take(upto)),
    decreases outcomes.len() - upto,
{
    if upto < outcomes.len() {
        assert(outcomes.take(upto + 1).drop_last() == outcomes.take(upto));
        lemma_run_stays_over(len, outcomes, upto + 1);
    } else {
        assert(outcomes.take(upto) == outcomes);
    }
}

/// Fatal propagation: where the command at `k` is the first that does not succeed,
/// the build fails there and names that command with its outcome, whatever is reported
/// later. The commands up to `k` were due one after the other, and once the command at
/// `k` has ended no command is ever due again.
pub proof fn law_fatal_propagation(len: nat, outcomes: Seq<CmdOutcome>, k: int)
    requires
        len <= usize::MAX,
        0 <= k < outcomes.len(),
        k < len,
        forall|j: int| 0 <= j < k ==> (#[trigger] outcomes[j]).success(),
        !outcomes[k].success(),
    ensures
        run(len, outcomes) == (BuildState::Failed { index: k as usize, outcome: outcomes[k] }),
        forall|j: int| 0 <= j <= k ==> (#[trigger] run(len, outcomes.take(j))).due(len) == Some(j),
        forall|j: int|
            k < j <= outcomes.len() ==> (#[trigger] run(len, outcomes.take(j))).due(len) is None,
{
    let failed = BuildState::Failed { index: k as usize, outcome: outcomes[k] };
    assert forall|j: int| 0 <= j <= k implies (#[trigger] run(len, outcomes.take(j))).due(len)
        == Some(j) by {
        lemma_run_of_successes(len, outcomes.take(j));
    }
    assert(run(len, outcomes.take(k + 1)) == failed) by {
        lemma_run_of_successes(len, outcomes.take(k));
        assert(outcomes.take(k + 1).drop_last() == outcomes.take(k));
    }
    assert forall|j: int| k < j <= outcomes.len() implies (#[trigger] run(
        len,
        outcomes.take(j),
    )).due(len) is None by {
        let shorter = outcomes.take(j);
        assert(shorter.take(k + 1) == outcomes.take(k + 1));
        lemma_run_stays_over(len, shorter, k + 1);
    }
    lemma_run_stays_over(len, outcomes, k + 1);
}

} // verus!
