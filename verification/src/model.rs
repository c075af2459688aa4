//! The supervisor as a transition system: phases, events, and the actions
//! each event calls for.

use vstd::prelude::*;
use crate::action::{ActionView, PollStatusView, POLL_PERIOD_MS};
use crate::command::plan_for;
use crate::error::JobErrorView;

verus! {

/// Whether a job is in flight, as seen from outside.
#[derive(Debug, Clone, Copy, PartialEq, Eq, Structural)]
pub enum JobState {
    /// No job is in flight; a start request will be taken up.
    Idle,
    /// A job is in flight; start requests are ignored.
    Running,
}

impl Default for JobState {
    fn default() -> (state: JobState)
        ensures
            state == JobState::Idle,
    {
        JobState::Idle
    }
}

/// Where the supervisor stands in the life of a job. `H` is whatever the host
/// uses to refer to the spawned process.
#[derive(Debug, PartialEq, Eq)]
pub enum Phase<H> {
    /// No job.
    Idle,
    /// A start request was taken up and the host has been asked to spawn the
    /// process; how that went is not known yet.
    Launching,
    /// The process was spawned and is being polled. The supervisor holds its
    /// handle until the job is over.
    Polling(H),
}

impl<H> Phase<H> {
    /// The job state that goes with this phase: only `Idle` is idle.
    pub open spec fn state(self) -> JobState {
        match self {
            Phase::Idle => JobState::Idle,
            Phase::Launching => JobState::Running,
            Phase::Polling(_) => JobState::Running,
        }
    }

    /// The handle of the process being polled, if there is one.
    pub open spec fn job(self) -> Option<H> {
        match self {
            Phase::Polling(handle) => Some(handle),
            _ => None,
        }
    }
}

/// What the host can report to the supervisor.
pub enum Event<H> {
    /// The user asked for a job with this payload.
    StartRequest(Seq<u8>),
    /// The process was spawned; this is its handle.
    LaunchSucceeded(H),
    /// The process could not be spawned.
    LaunchFailed(Seq<char>),
    /// A poll tick fired and the status query came back with this.
    PollTick(PollStatusView),
}

/// A start request is taken up only when idle: the supervisor turns busy and
/// asks for the launch. In any other phase the request changes nothing and
/// asks for nothing.
pub open spec fn on_start_request<H>(phase: Phase<H>, input: Seq<u8>) -> (Phase<H>, Seq<ActionView>) {
    match phase {
        Phase::Idle => (Phase::Launching, seq![ActionView::Launch(plan_for(input))]),
        _ => (phase, Seq::empty()),
    }
}

/// Once the awaited launch has succeeded the supervisor keeps the handle,
/// has the busy indicator shown and then has the recurring poll started.
/// A report that no launch was waiting for is ignored.
pub open spec fn on_launch_succeeded<H>(phase: Phase<H>, handle: H) -> (Phase<H>, Seq<ActionView>) {
    match phase {
        Phase::Launching => (
            Phase::Polling(handle),
            seq![ActionView::ShowBusyIndicator, ActionView::SchedulePoll { period_ms: POLL_PERIOD_MS }],
        ),
        _ => (phase, Seq::empty()),
    }
}

/// Once the awaited launch has failed the failure is reported and the
/// supervisor is idle again; the indicator was never shown and no poll was
/// started. A report that no launch was waiting for is ignored.
pub open spec fn on_launch_failed<H>(phase: Phase<H>, detail: Seq<char>) -> (Phase<H>, Seq<ActionView>) {
    match phase {
        Phase::Launching => (
            Phase::Idle,
            seq![ActionView::ReportError(JobErrorView::Launch(detail))],
        ),
        _ => (phase, Seq::empty()),
    }
}

/// What ends a polled job: nothing when the process is still running; hiding
/// the indicator and cancelling the poll when it has terminated, whatever its
/// exit code; the same, after reporting the failure, when the query failed.
pub open spec fn conclusion(status: PollStatusView) -> Seq<ActionView> {
    match status {
        PollStatusView::StillRunning => Seq::empty(),
        PollStatusView::Terminated(_) => seq![
            ActionView::HideBusyIndicator,
            ActionView::CancelPoll,
        ],
        PollStatusView::QueryFailed(detail) => seq![
            ActionView::ReportError(JobErrorView::Poll(detail)),
            ActionView::HideBusyIndicator,
            ActionView::CancelPoll,
        ],
    }
}

/// A poll tick while a process is being polled: a process still running
/// leaves everything as it is; any other status ends the job, releases the
/// handle and calls for the job's conclusion. A tick in any other phase, such
/// as a late one after the poll was cancelled, is ignored.
pub open spec fn on_poll_tick<H>(phase: Phase<H>, status: PollStatusView) -> (Phase<H>, Seq<ActionView>) {
    match phase {
        Phase::Polling(_) => if status is StillRunning {
            (phase, Seq::empty())
        } else {
            (Phase::Idle, conclusion(status))
        },
        _ => (phase, Seq::empty()),
    }
}

/// One transition: the phase after `event`, and the actions it calls for.
pub open spec fn step<H>(phase: Phase<H>, event: Event<H>) -> (Phase<H>, Seq<ActionView>) {
    match event {
        Event::StartRequest(input) => on_start_request(phase, input),
        Event::LaunchSucceeded(handle) => on_launch_succeeded(phase, handle),
        Event::LaunchFailed(detail) => on_launch_failed(phase, detail),
        Event::PollTick(status) => on_poll_tick(phase, status),
    }
}

/// Feeding a whole sequence of events, one after the other: the phase at the
/// end, and every action called for on the way, in order.
pub open spec fn run<H>(phase: Phase<H>, events: Seq<Event<H>>) -> (Phase<H>, Seq<ActionView>)
    decreases events.len(),
{
    if events.len() == 0 {
        (phase, Seq::empty())
    } else {
        let (before, earlier) = run(phase, events.drop_last());
        let (after, latest) = step(before, events.last());
        (after, earlier + latest)
    }
}

} // verus!
