//! The stages by which a toolchain is bootstrapped, each built by the one before it.

use vstd::prelude::*;

verus! {

/// A stage of the bootstrap.
#[derive(Clone, Copy, Debug, PartialEq, Eq, Structural)]
pub enum Stage {
    /// The compiler that the host supplies: trusted, and run outside any sandbox.
    Bootstrap,
    /// The cross-compiler that the bootstrap compiler builds; it runs in a sandbox.
    Stage1,
    /// The compiler that stage 1 builds from inside its sandbox.
    Stage2,
}

/// Why a change of stage was turned down.
#[derive(Clone, Copy, Debug, PartialEq, Eq, Structural)]
pub enum StageError {
    /// The stage asked for is not the one that follows.
    NotNext { from: Stage, to: Stage },
}

impl Stage {
    /// The stage that this one builds, if it builds one.
    pub open spec fn successor(self) -> Option<Stage> {
        match self {
            Stage::Bootstrap => Some(Stage::Stage1),
            Stage::Stage1 => Some(Stage::Stage2),
            Stage::Stage2 => None,
        }
    }

    /// How many stages were built before this one.
    pub open spec fn rank(self) -> nat {
        match self {
            Stage::Bootstrap => 0,
            Stage::Stage1 => 1,
            Stage::Stage2 => 2,
        }
    }

    /// Whether this stage runs inside a sandbox.
    pub open spec fn is_sandboxed(self) -> bool {
        self != Stage::Bootstrap
    }

    /// Whether a tool of the host may stand in for a declared dependency at this stage.
    pub open spec fn admits_host_tool(self) -> bool {
        self != Stage::Stage2
    }

    /// The stage that this one builds, if it builds one.
    pub fn next(self) -> (next: Option<Stage>)
        ensures
            next == self.successor(),
    {
        match self {
            Stage::Bootstrap => Some(Stage::Stage1),
            Stage::Stage1 => Some(Stage::Stage2),
            Stage::Stage2 => None,
        }
    }

    /// Goes on from this stage to `to`, which must be the stage that follows.
    pub fn advance(self, to: Stage) -> (res: Result<Stage, StageError>)
        ensures
            self.successor() == Some(to) ==> res == Ok::<Stage, StageError>(to),
            self.successor() != Some(to) ==> res == Err::<Stage, StageError>(
                StageError::NotNext { from: self, to },
            ),
    {
        match self.next() {
            Some(next) if next == to => Ok(to),
            _ => Err(StageError::NotNext { from: self, to }),
        }
    }

    /// Whether this stage runs inside a sandbox.
    pub fn sandboxed(self) -> (yes: bool)
        ensures
            yes == self.is_sandboxed(),
    {
        match self {
            Stage::Bootstrap => false,
            _ => true,
        }
    }

    /// Whether a tool of the host may stand in for a declared dependency at this stage.
    pub fn host_tool_admitted(self) -> (yes: bool)
        ensures
            yes == self.admits_host_tool(),
    {
        match self {
            Stage::Stage2 => false,
            _ => true,
        }
    }
}

/// Whether each stage of `course` but the first is the successor of the one before it.
pub open spec fn in_sequence(course: Seq<Stage>) -> bool {
    forall|i: int| 0 <= i < course.len() - 1 ==> (#[trigger] course[i]).successor() == Some(
        course[i + 1],
    )
}

/// No stage is skipped: a course that begins at the bootstrap stage and goes from each
/// stage to its successor reaches its stages in their order, one at a time, so that it
/// has three stages at most, passes through stage 1 before it reaches stage 2, and is
/// sandboxed from its second stage on.
pub proof fn law_no_stage_skipped(course: Seq<Stage>, i: int)
    requires
        course.len() > 0,
        course[0] == Stage::Bootstrap,
        in_sequence(course),
        0 <= i < course.len(),
    ensures
        course[i].rank() == i,
        course.len() <= 3,
        i >= 1 ==> course[i].is_sandboxed(),
        course[i] == Stage::Stage2 ==> course[i - 1] == Stage::Stage1,
{
    lemma_rank_in_sequence(course, i);
    if course.len() > 3 {
        lemma_rank_in_sequence(course, 2);
        assert(course[2].successor() == Some(course[3]));
    }
    if i >= 1 {
        lemma_rank_in_sequence(course, i - 1);
        assert(course[i - 1].successor() == Some(course[i]));
    }
}

/// In a course from the bootstrap stage, the stage at each place has that place's rank.
pub proof fn lemma_rank_in_sequence(course: Seq<Stage>, i: int)
    requires
        course.len() > 0,
        course[0] == Stage::Bootstrap,
        in_sequence(course),
        0 <= i < course.len(),
    ensures
        course[i].rank() == i,
    decreases i,
{
    if i > 0 {
        lemma_rank_in_sequence(course, i - 1);
        assert(course[i - 1].successor() == Some(course[i]));
    }
}

} // verus!
