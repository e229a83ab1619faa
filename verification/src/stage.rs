//! The stages that one request passes through.

use vstd::prelude::*;

verus! {

/// Where a request stands in its course.
#[derive(Debug, Clone, Copy, PartialEq, Eq, Structural)]
pub enum Stage {
    /// The inbound request has arrived.
    Received,
    /// The outbound request has been built.
    Transformed,
    /// The upstream has answered.
    Forwarded,
    /// The response for the caller has been built.
    ResponseBuilt,
    /// The response has been handed to the caller.
    Completed,
    /// Some stage failed; the caller gets the error reply.
    Failed,
}

impl Stage {
    /// The two stages in which a course ends.
    pub open spec fn terminal(self) -> bool {
        self == Stage::Completed || self == Stage::Failed
    }

    /// The stage that follows when the work of this stage succeeded or
    /// failed. A terminal stage has no successor but itself; from every other
    /// stage a failure leads to `Failed` at once.
    pub open spec fn successor(self, succeeded: bool) -> Stage {
        match self {
            Stage::Completed => Stage::Completed,
            Stage::Failed => Stage::Failed,
            Stage::Received => if succeeded { Stage::Transformed } else { Stage::Failed },
            Stage::Transformed => if succeeded { Stage::Forwarded } else { Stage::Failed },
            Stage::Forwarded => if succeeded { Stage::ResponseBuilt } else { Stage::Failed },
            Stage::ResponseBuilt => if succeeded { Stage::Completed } else { Stage::Failed },
        }
    }

    /// How many successful steps lie between this stage and `Completed`.
    pub open spec fn remaining(self) -> nat {
        match self {
            Stage::Received => 4,
            Stage::Transformed => 3,
            Stage::Forwarded => 2,
            Stage::ResponseBuilt => 1,
            Stage::Completed => 0,
            Stage::Failed => 0,
        }
    }

    /// Says whether the course has ended.
    pub fn is_terminal(self) -> (r: bool)
        ensures
            r == self.terminal(),
    {
        match self {
            Stage::Completed => true,
            Stage::Failed => true,
            _ => false,
        }
    }

    /// Moves to the next stage, given whether the work of this stage
    /// succeeded.
    pub fn advance(self, succeeded: bool) -> (next: Stage)
        ensures
            next == self.successor(succeeded),
    {
        if self.is_terminal() {
            self
        } else if !succeeded {
            Stage::Failed
        } else {
            match self {
                Stage::Received => Stage::Transformed,
                Stage::Transformed => Stage::Forwarded,
                Stage::Forwarded => Stage::ResponseBuilt,
                _ => Stage::Completed,
            }
        }
    }
}

/// A terminal stage is never left, and a failure in any other stage ends the
/// course in `Failed`; a success brings the course one step nearer to
/// `Completed`, and `Completed` is reached by success alone.
pub proof fn lemma_course_is_linear(stage: Stage, succeeded: bool)
    ensures
        stage.terminal() ==> stage.successor(succeeded) == stage,
        !stage.terminal() && !succeeded ==> stage.successor(succeeded) == Stage::Failed,
        !stage.terminal() && succeeded ==> stage.successor(succeeded).remaining() + 1
            == stage.remaining(),
        stage.successor(succeeded) == Stage::Completed ==> succeeded || stage == Stage::Completed,
        stage.remaining() == 0 <==> stage.terminal(),
{
}

/// The stage in which a course ends, given whether the outbound request was
/// built, whether the upstream answered, and whether the response for the
/// caller was built. Handing a built response to the caller does not fail.
pub open spec fn course_end(transformed: bool, answered: bool, built: bool) -> Stage {
    Stage::Received.successor(transformed).successor(answered).successor(built).successor(true)
}

/// Every course ends in a terminal stage: in `Completed` where each stage
/// succeeded, and in `Failed` as soon as one did not, whatever would have
/// come after it.
pub proof fn lemma_course_ends(transformed: bool, answered: bool, built: bool)
    ensures
        course_end(transformed, answered, built).terminal(),
        course_end(transformed, answered, built) == Stage::Completed <==> transformed && answered
            && built,
        !transformed ==> course_end(transformed, answered, built) == Stage::Failed,
{
}

} // verus!
