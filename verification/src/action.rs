//! What the supervisor observes and what it asks of the host.

use vstd::prelude::*;
use crate::command::{LaunchPlan, LaunchPlanView};
use crate::error::{JobError, JobErrorView};

verus! {

/// Milliseconds between two poll ticks.
pub const POLL_PERIOD_MS: u32 = 1000;

/// What a non-blocking status query on the running process came back with.
#[derive(Debug, PartialEq, Eq)]
pub enum PollStatus {
    /// The process has not finished yet.
    StillRunning,
    /// The process has finished. The exit code, where there is one, is
    /// carried along but never looked at: any exit counts as termination.
    Terminated(Option<i32>),
    /// The query itself failed.
    QueryFailed(String),
}

/// Mathematical content of a [`PollStatus`].
pub enum PollStatusView {
    StillRunning,
    Terminated(Option<i32>),
    QueryFailed(Seq<char>),
}

impl DeepView for PollStatus {
    type V = PollStatusView;

    open spec fn deep_view(&self) -> PollStatusView {
        match self {
            PollStatus::StillRunning => PollStatusView::StillRunning,
            PollStatus::Terminated(code) => PollStatusView::Terminated(*code),
            PollStatus::QueryFailed(detail) => PollStatusView::QueryFailed(detail@),
        }
    }
}

/// One thing the host has to do on the supervisor's behalf.
#[derive(Debug, PartialEq, Eq)]
pub enum Action {
    /// Spawn the external process described by the plan, then report how the
    /// launch went.
    Launch(LaunchPlan),
    /// Show the busy indicator.
    ShowBusyIndicator,
    /// Hide the busy indicator.
    HideBusyIndicator,
    /// Tell the user about a failure.
    ReportError(JobError),
    /// Start querying the process once per period and report each status.
    SchedulePoll { period_ms: u32 },
    /// Stop the recurring poll and release it.
    CancelPoll,
}

/// Mathematical content of an [`Action`].
pub enum ActionView {
    Launch(LaunchPlanView),
    ShowBusyIndicator,
    HideBusyIndicator,
    ReportError(JobErrorView),
    SchedulePoll { period_ms: u32 },
    CancelPoll,
}

impl DeepView for Action {
    type V = ActionView;

    open spec fn deep_view(&self) -> ActionView {
        match self {
            Action::Launch(plan) => ActionView::Launch(plan.deep_view()),
            Action::ShowBusyIndicator => ActionView::ShowBusyIndicator,
            Action::HideBusyIndicator => ActionView::HideBusyIndicator,
            Action::ReportError(error) => ActionView::ReportError(error.deep_view()),
            Action::SchedulePoll { period_ms } => ActionView::SchedulePoll { period_ms: *period_ms },
            Action::CancelPoll => ActionView::CancelPoll,
        }
    }
}

} // verus!
