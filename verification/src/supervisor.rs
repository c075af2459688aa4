//! The supervisor itself: one slot for one job.

use vstd::prelude::*;
use crate::action::{Action, ActionView, PollStatus, POLL_PERIOD_MS};
use crate::command::launch_plan;
use crate::error::JobError;
use crate::model::{
    on_launch_failed, on_launch_succeeded, on_poll_tick, on_start_request, JobState, Phase,
};

verus! {

/// Supervises at most one job at a time. The state is owned by the value:
/// independent supervisors do not share anything.
#[derive(Debug)]
pub struct Supervisor<H> {
    phase: Phase<H>,
}

impl<H> View for Supervisor<H> {
    type V = Phase<H>;

    closed spec fn view(&self) -> Phase<H> {
        self.phase
    }
}

impl<H> Supervisor<H> {
    /// A supervisor with no job.
    pub fn new() -> (supervisor: Supervisor<H>)
        ensures
            supervisor@ == Phase::<H>::Idle,
    {
        Supervisor { phase: Phase::Idle }
    }

    /// Whether a job is in flight.
    pub fn state(&self) -> (state: JobState)
        ensures
            state == self@.state(),
    {
        match &self.phase {
            Phase::Idle => JobState::Idle,
            _ => JobState::Running,
        }
    }

    /// The handle of the process being polled, for the host to query.
    pub fn job(&self) -> (handle: Option<&H>)
        ensures
            match handle {
                Some(h) => self@.job() == Some(*h),
                None => self@.job() is None,
            },
    {
        match &self.phase {
            Phase::Polling(handle) => Some(handle),
            _ => None,
        }
    }

    /// The user asks for a job with payload `input`.
    ///
    /// When idle, the supervisor turns busy and asks the host to spawn the
    /// downloader with `input` on its standard input. When a job is already
    /// in flight the request is dropped: nothing changes, nothing is asked
    /// for, nothing is queued, no error is raised.
    pub fn request_start(&mut self, input: Vec<u8>) -> (actions: Vec<Action>)
        ensures
            (final(self)@, actions.deep_view()) == on_start_request(old(self)@, input@),
    {
        match &self.phase {
            Phase::Idle => {
                let plan = launch_plan(input);
                self.phase = Phase::Launching;
                let actions = vec![Action::Launch(plan)];
                assert(actions.deep_view() =~= on_start_request(old(self)@, input@).1);
                actions
            },
            _ => {
                let actions: Vec<Action> = Vec::new();
                assert(actions.deep_view() =~= Seq::<ActionView>::empty());
                actions
            },
        }
    }

    /// The host reports that the process was spawned and hands over its
    /// handle.
    pub fn launch_succeeded(&mut self, handle: H) -> (actions: Vec<Action>)
        ensures
            (final(self)@, actions.deep_view()) == on_launch_succeeded(old(self)@, handle),
    {
        match &self.phase {
            Phase::Launching => {
                self.phase = Phase::Polling(handle);
                let actions = vec![
                    Action::ShowBusyIndicator,
                    Action::SchedulePoll { period_ms: POLL_PERIOD_MS },
                ];
                assert(actions.deep_view() =~= on_launch_succeeded(old(self)@, handle).1);
                actions
            },
            _ => {
                let actions: Vec<Action> = Vec::new();
                assert(actions.deep_view() =~= Seq::<ActionView>::empty());
                actions
            },
        }
    }

    /// The host reports that the process could not be spawned, with the
    /// failure detail.
    pub fn launch_failed(&mut self, detail: String) -> (actions: Vec<Action>)
        ensures
            (final(self)@, actions.deep_view()) == on_launch_failed(old(self)@, detail@),
    {
        match &self.phase {
            Phase::Launching => {
                self.phase = Phase::Idle;
                let actions = vec![Action::ReportError(JobError::Launch(detail))];
                assert(actions.deep_view() =~= on_launch_failed(old(self)@, detail@).1);
                actions
            },
            _ => {
                let actions: Vec<Action> = Vec::new();
                assert(actions.deep_view() =~= Seq::<ActionView>::empty());
                actions
            },
        }
    }

    /// A poll tick fired and the host's status query came back with `status`.
    pub fn poll_tick(&mut self, status: PollStatus) -> (actions: Vec<Action>)
        ensures
            (final(self)@, actions.deep_view()) == on_poll_tick(old(self)@, status.deep_view()),
    {
        match &self.phase {
            Phase::Polling(_) => match status {
                PollStatus::StillRunning => {
                    let actions: Vec<Action> = Vec::new();
                    assert(actions.deep_view() =~= Seq::<ActionView>::empty());
                    actions
                },
                PollStatus::Terminated(_) => {
                    self.phase = Phase::Idle;
                    let actions = vec![Action::HideBusyIndicator, Action::CancelPoll];
                    assert(actions.deep_view() =~= on_poll_tick(old(self)@, status.deep_view()).1);
                    actions
                },
                PollStatus::QueryFailed(detail) => {
                    self.phase = Phase::Idle;
                    let actions = vec![
                        Action::ReportError(JobError::Poll(detail)),
                        Action::HideBusyIndicator,
                        Action::CancelPoll,
                    ];
                    assert(actions.deep_view() =~= on_poll_tick(old(self)@, status.deep_view()).1);
                    actions
                },
            },
            _ => {
                let actions: Vec<Action> = Vec::new();
                assert(actions.deep_view() =~= Seq::<ActionView>::empty());
                actions
            },
        }
    }
}

} // verus!
