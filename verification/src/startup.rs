//! The order in which the service starts, and where a start ends.

use crate::error::{AppErr, AppErrView};
use vstd::prelude::*;

verus! {

/// The steps of a start, in the order in which they are taken.
#[derive(Clone, Copy, Debug, PartialEq, Eq, Structural)]
pub enum Stage {
    /// Install the handler that reports errors.
    InstallHandler,
    /// Load the configuration and read the settings.
    GetConfiguration,
    /// Open the pool of database connections.
    ConnectDatabase,
    /// Bind the listener to the application's port.
    Listen,
    /// Hand listener and pool to the server.
    RunServer,
}

/// Where a start stands after a step.
#[derive(Debug)]
pub enum Startup {
    /// The step succeeded: take this one next.
    Continue(Stage),
    /// The last step succeeded: the server runs.
    Serving,
    /// The step failed: the start is over.
    Failed(AppErr),
}

/// [`Startup`] with the failure as stage and text.
pub enum StartupView {
    Continue(Stage),
    Serving,
    Failed(AppErrView),
}

impl View for Startup {
    type V = StartupView;

    open spec fn view(&self) -> StartupView {
        match *self {
            Startup::Continue(stage) => StartupView::Continue(stage),
            Startup::Serving => StartupView::Serving,
            Startup::Failed(error) => StartupView::Failed(error@),
        }
    }
}

/// The outcome of a step: nothing, or the text of what went wrong.
pub type Outcome = Result<(), Seq<char>>;

impl Stage {
    /// The step that a start begins with.
    pub fn first() -> (stage: Stage)
        ensures
            stage == Stage::InstallHandler,
    {
        Stage::InstallHandler
    }

    /// The step that follows this one, if one does.
    pub open spec fn following(self) -> Option<Stage> {
        match self {
            Stage::InstallHandler => Some(Stage::GetConfiguration),
            Stage::GetConfiguration => Some(Stage::ConnectDatabase),
            Stage::ConnectDatabase => Some(Stage::Listen),
            Stage::Listen => Some(Stage::RunServer),
            Stage::RunServer => None,
        }
    }

    /// The number of steps that come before this one.
    pub open spec fn rank(self) -> nat {
        match self {
            Stage::InstallHandler => 0,
            Stage::GetConfiguration => 1,
            Stage::ConnectDatabase => 2,
            Stage::Listen => 3,
            Stage::RunServer => 4,
        }
    }
}

/// Where a start stands after the step `stage` ended with `outcome`: a failed
/// step ends the start with the error of that stage, a step that succeeded
/// leads to the following one, and the last to the running server.
pub open spec fn step(stage: Stage, outcome: Outcome) -> StartupView {
    match outcome {
        Err(cause) => StartupView::Failed(AppErrView { stage, source: cause }),
        Ok(_) => match stage.following() {
            Some(next) => StartupView::Continue(next),
            None => StartupView::Serving,
        },
    }
}

/// The outcome of a step as plain text.
pub open spec fn outcome_view(outcome: Result<(), String>) -> Outcome {
    match outcome {
        Ok(_) => Ok(()),
        Err(cause) => Err(cause@),
    }
}

/// Decides how a start goes on after the step `stage` ended with `outcome`.
///
/// Every failure is final: there is no second try and no start without the
/// step. So a database that cannot be reached ends the start with
/// `PostgresConnection`, before the listener is bound.
pub fn advance(stage: Stage, outcome: Result<(), String>) -> (next: Startup)
    ensures
        next@ == step(stage, outcome_view(outcome)),
{
    match outcome {
        Err(cause) => Startup::Failed(AppErr::at(stage, cause)),
        Ok(_) => match stage {
            Stage::InstallHandler => Startup::Continue(Stage::GetConfiguration),
            Stage::GetConfiguration => Startup::Continue(Stage::ConnectDatabase),
            Stage::ConnectDatabase => Startup::Continue(Stage::Listen),
            Stage::Listen => Startup::Continue(Stage::RunServer),
            Stage::RunServer => Startup::Serving,
        },
    }
}

/// Where a start that stands before `stage` ends when its steps end with
/// `outcomes`, one after the other; a start with steps left is not at an end.
pub open spec fn ending(stage: Stage, outcomes: Seq<Outcome>) -> StartupView
    decreases outcomes.len(),
{
    if outcomes.len() == 0 {
        StartupView::Continue(stage)
    } else {
        match step(stage, outcomes[0]) {
            StartupView::Continue(next) => ending(next, outcomes.drop_first()),
            end => end,
        }
    }
}

/// A start fails at its first step that fails, with the error of that stage
/// and the cause that the step gave: no step is taken after it, whatever
/// its outcome would have been.
pub proof fn first_failure_ends_the_start(stage: Stage, outcomes: Seq<Outcome>, failed: int)
    requires
        0 <= failed < outcomes.len(),
        stage.rank() + failed < 5,
        outcomes[failed] is Err,
        forall|i: int| 0 <= i < failed ==> (#[trigger] outcomes[i]) is Ok,
    ensures
        ending(stage, outcomes) matches StartupView::Failed(error) && error.stage.rank()
            == stage.rank() + failed && error.source == outcomes[failed]->Err_0,
    decreases failed,
{
    if failed > 0 {
        let rest = outcomes.drop_first();
        assert(outcomes[0] is Ok);
        assert(forall|i: int| 0 <= i < failed - 1 ==> (#[trigger] rest[i]) == outcomes[i + 1]);
        first_failure_ends_the_start(stage.following()->0, rest, failed - 1);
    }
}

/// A start whose steps all succeed ends with the running server, once the
/// last of them is taken.
pub proof fn successes_bring_the_server_up(stage: Stage, outcomes: Seq<Outcome>)
    requires
        stage.rank() + outcomes.len() >= 5,
        forall|i: int| 0 <= i < outcomes.len() ==> (#[trigger] outcomes[i]) is Ok,
    ensures
        ending(stage, outcomes) == StartupView::Serving,
    decreases outcomes.len(),
{
    assert(outcomes[0] is Ok);
    if stage.following() is Some {
        successes_bring_the_server_up(stage.following()->0, outcomes.drop_first());
    }
}

} // verus!
