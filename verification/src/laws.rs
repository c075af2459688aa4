//! What holds of every run of the supervisor.

use vstd::prelude::*;
use crate::action::{ActionView, PollStatusView};
use crate::error::JobErrorView;
use crate::model::{conclusion, on_poll_tick, run, step, Event, JobState, Phase};

verus! {

/// The kinds of action a trace is counted by. Error reports are told apart
/// by what failed.
pub enum ActionKind {
    Launch,
    ShowBusyIndicator,
    HideBusyIndicator,
    ReportLaunchError,
    ReportPollError,
    SchedulePoll,
    CancelPoll,
}

impl ActionView {
    /// The kind an action is counted under.
    pub open spec fn kind(self) -> ActionKind {
        match self {
            ActionView::Launch(_) => ActionKind::Launch,
            ActionView::ShowBusyIndicator => ActionKind::ShowBusyIndicator,
            ActionView::HideBusyIndicator => ActionKind::HideBusyIndicator,
            ActionView::ReportError(JobErrorView::Launch(_)) => ActionKind::ReportLaunchError,
            ActionView::ReportError(JobErrorView::Poll(_)) => ActionKind::ReportPollError,
            ActionView::SchedulePoll { .. } => ActionKind::SchedulePoll,
            ActionView::CancelPoll => ActionKind::CancelPoll,
        }
    }
}

/// How many actions of `kind` a trace holds.
pub open spec fn count(trace: Seq<ActionView>, kind: ActionKind) -> nat
    decreases trace.len(),
{
    if trace.len() == 0 {
        0
    } else {
        count(trace.drop_last(), kind) + if trace.last().kind() == kind { 1nat } else { 0nat }
    }
}

/// Each status in turn, as the event of one poll tick.
pub open spec fn poll_ticks<H>(statuses: Seq<PollStatusView>) -> Seq<Event<H>> {
    Seq::new(statuses.len(), |i: int| Event::PollTick(statuses[i]))
}

/// Each payload in turn, as the event of one start request.
pub open spec fn start_requests<H>(inputs: Seq<Seq<u8>>) -> Seq<Event<H>> {
    Seq::new(inputs.len(), |i: int| Event::StartRequest(inputs[i]))
}

proof fn lemma_count_push(trace: Seq<ActionView>, action: ActionView, kind: ActionKind)
    ensures
        count(trace.push(action), kind) == count(trace, kind) + if action.kind() == kind {
            1nat
        } else {
            0nat
        },
{
    assert(trace.push(action).drop_last() =~= trace);
}

/// One if `trace` has an action at `index` and it is of `kind`, else zero.
spec fn counts_at(trace: Seq<ActionView>, index: int, kind: ActionKind) -> nat {
    if index < trace.len() && trace[index].kind() == kind {
        1
    } else {
        0
    }
}

/// Counts after one more transition, in terms of the counts before it: a
/// transition calls for three actions at most.
proof fn lemma_count_after_step<H>(
    phase: Phase<H>,
    event: Event<H>,
    trace: Seq<ActionView>,
    kind: ActionKind,
)
    ensures
        count(trace + step(phase, event).1, kind) == count(trace, kind) + counts_at(
            step(phase, event).1,
            0,
            kind,
        ) + counts_at(step(phase, event).1, 1, kind) + counts_at(step(phase, event).1, 2, kind),
{
    let latest = step(phase, event).1;
    if latest.len() == 0 {
        assert(trace + latest =~= trace);
    } else if latest.len() == 1 {
        assert(trace + latest =~= trace.push(latest[0]));
        lemma_count_push(trace, latest[0], kind);
    } else if latest.len() == 2 {
        assert(trace + latest =~= trace.push(latest[0]).push(latest[1]));
        lemma_count_push(trace, latest[0], kind);
        lemma_count_push(trace.push(latest[0]), latest[1], kind);
    } else {
        assert(trace + latest =~= trace.push(latest[0]).push(latest[1]).push(latest[2]));
        lemma_count_push(trace, latest[0], kind);
        lemma_count_push(trace.push(latest[0]), latest[1], kind);
        lemma_count_push(trace.push(latest[0]).push(latest[1]), latest[2], kind);
    }
}

/// How the counts of a trace and the phase reached go together.
spec fn accounted<H>(phase: Phase<H>, trace: Seq<ActionView>) -> bool {
    let in_flight: nat = if phase.state() == JobState::Running { 1 } else { 0 };
    let shown: nat = if phase is Polling { 1 } else { 0 };
    &&& count(trace, ActionKind::Launch) == count(trace, ActionKind::ReportLaunchError) + count(
        trace,
        ActionKind::HideBusyIndicator,
    ) + in_flight
    &&& count(trace, ActionKind::ShowBusyIndicator) == count(trace, ActionKind::HideBusyIndicator)
        + shown
    &&& count(trace, ActionKind::ReportPollError) <= count(trace, ActionKind::HideBusyIndicator)
    &&& count(trace, ActionKind::SchedulePoll) == count(trace, ActionKind::ShowBusyIndicator)
    &&& count(trace, ActionKind::CancelPoll) == count(trace, ActionKind::HideBusyIndicator)
}

proof fn lemma_step_keeps_account<H>(phase: Phase<H>, trace: Seq<ActionView>, event: Event<H>)
    requires
        accounted(phase, trace),
    ensures
        accounted(step(phase, event).0, trace + step(phase, event).1),
{
    lemma_count_after_step(phase, event, trace, ActionKind::Launch);
    lemma_count_after_step(phase, event, trace, ActionKind::ShowBusyIndicator);
    lemma_count_after_step(phase, event, trace, ActionKind::HideBusyIndicator);
    lemma_count_after_step(phase, event, trace, ActionKind::ReportLaunchError);
    lemma_count_after_step(phase, event, trace, ActionKind::ReportPollError);
    lemma_count_after_step(phase, event, trace, ActionKind::SchedulePoll);
    lemma_count_after_step(phase, event, trace, ActionKind::CancelPoll);
}

proof fn lemma_run_keeps_account<H>(events: Seq<Event<H>>)
    ensures
        accounted(run(Phase::<H>::Idle, events).0, run(Phase::<H>::Idle, events).1),
    decreases events.len(),
{
    if events.len() > 0 {
        lemma_run_keeps_account(events.drop_last());
        let (before, earlier) = run(Phase::<H>::Idle, events.drop_last());
        lemma_step_keeps_account(before, earlier, events.last());
    }
}

/// Single flight. While a job is in flight, start requests are no-ops,
/// however many arrive: the phase stays what it was and no action is asked
/// for, so no second process is spawned and nothing is shown, hidden or
/// reported on their account.
pub proof fn law_single_flight<H>(phase: Phase<H>, inputs: Seq<Seq<u8>>)
    requires
        phase.state() == JobState::Running,
    ensures
        run(phase, start_requests(inputs)) == (phase, Seq::<ActionView>::empty()),
    decreases inputs.len(),
{
    if inputs.len() > 0 {
        law_single_flight(phase, inputs.drop_last());
        assert(start_requests::<H>(inputs).drop_last() =~= start_requests::<H>(inputs.drop_last()));
        assert(Seq::<ActionView>::empty() + Seq::<ActionView>::empty() =~= Seq::<ActionView>::empty());
    }
}

/// Jobs never overlap. After any events whatsoever, fed to a supervisor that
/// started idle, every launch asked for so far has been closed exactly once,
/// by a launch-error report or by hiding the indicator, except the one job in
/// flight when the supervisor is busy. So at most one process is ever
/// unaccounted for.
pub proof fn law_jobs_never_overlap<H>(events: Seq<Event<H>>)
    ensures
        ({
            let (phase, trace) = run(Phase::<H>::Idle, events);
            let in_flight: nat = if phase.state() == JobState::Running { 1 } else { 0 };
            count(trace, ActionKind::Launch) == count(trace, ActionKind::ReportLaunchError) + count(
                trace,
                ActionKind::HideBusyIndicator,
            ) + in_flight
        }),
{
    lemma_run_keeps_account(events);
}

/// The indicator is hidden once per job shown. After any events whatsoever,
/// fed to a supervisor that started idle, the indicator was shown exactly as
/// often as it was hidden, plus once for the job being polled, if there is
/// one. Each showing comes with one scheduled poll and each hiding with one
/// cancelled poll, and a poll error was never reported more often than the
/// indicator was hidden.
pub proof fn law_indicator_balance<H>(events: Seq<Event<H>>)
    ensures
        ({
            let (phase, trace) = run(Phase::<H>::Idle, events);
            let shown: nat = if phase is Polling { 1 } else { 0 };
            &&& count(trace, ActionKind::ShowBusyIndicator) == count(
                trace,
                ActionKind::HideBusyIndicator,
            ) + shown
            &&& count(trace, ActionKind::ReportPollError) <= count(
                trace,
                ActionKind::HideBusyIndicator,
            )
            &&& count(trace, ActionKind::SchedulePoll) == count(trace, ActionKind::ShowBusyIndicator)
            &&& count(trace, ActionKind::CancelPoll) == count(trace, ActionKind::HideBusyIndicator)
        }),
{
    lemma_run_keeps_account(events);
}

/// Always resets. Whatever ends a job leaves the supervisor idle at once: a
/// failed launch while launching, and, while polling, the first tick whose
/// status is anything but still running.
pub proof fn law_always_resets<H>(phase: Phase<H>, event: Event<H>)
    requires
        (phase is Launching && event is LaunchFailed) || (phase is Polling && event is PollTick
            && !(event->PollTick_0 is StillRunning)),
    ensures
        step(phase, event).0 == Phase::<H>::Idle,
        step(phase, event).0.state() == JobState::Idle,
{
}

/// Nothing happens while the process runs. As long as every tick finds the
/// process still running, the job stays as it is and nothing is asked of the
/// host: with no timeout, a process that never ends is polled for ever.
pub proof fn law_quiet_while_running<H>(handle: H, statuses: Seq<PollStatusView>)
    requires
        forall|i: int| 0 <= i < statuses.len() ==> statuses[i] is StillRunning,
    ensures
        run(Phase::Polling(handle), poll_ticks(statuses)) == (
            Phase::Polling(handle),
            Seq::<ActionView>::empty(),
        ),
    decreases statuses.len(),
{
    if statuses.len() > 0 {
        law_quiet_while_running(handle, statuses.drop_last());
        assert(poll_ticks::<H>(statuses).drop_last() =~= poll_ticks::<H>(statuses.drop_last()));
        assert(Seq::<ActionView>::empty() + Seq::<ActionView>::empty() =~= Seq::<ActionView>::empty());
    }
}

/// One conclusion per job. For a job being polled, take any sequence of
/// ticks in which tick `first` is the first to find anything but a running
/// process. Then all that is ever asked of the host is the conclusion that
/// goes with that tick's status: hide and cancel alone after a termination,
/// or report, hide and cancel after a failed query. Never both, never
/// neither, and whatever ticks come later add nothing. The supervisor ends
/// idle.
pub proof fn law_one_conclusion<H>(handle: H, statuses: Seq<PollStatusView>, first: int)
    requires
        0 <= first < statuses.len(),
        forall|i: int| 0 <= i < first ==> statuses[i] is StillRunning,
        !(statuses[first] is StillRunning),
    ensures
        run(Phase::Polling(handle), poll_ticks(statuses)) == (
            Phase::<H>::Idle,
            conclusion(statuses[first]),
        ),
    decreases statuses.len(),
{
    let earlier = statuses.drop_last();
    assert(poll_ticks::<H>(statuses).drop_last() =~= poll_ticks::<H>(earlier));
    if first == statuses.len() - 1 {
        law_quiet_while_running(handle, earlier);
        assert(Seq::<ActionView>::empty() + conclusion(statuses[first]) =~= conclusion(
            statuses[first],
        ));
    } else {
        law_one_conclusion(handle, earlier, first);
        assert(conclusion(statuses[first]) + Seq::<ActionView>::empty() =~= conclusion(
            statuses[first],
        ));
    }
}

/// The exit code does not matter. Two ticks that both find the process
/// terminated are answered alike, whatever the exit codes.
pub proof fn law_exit_code_ignored<H>(phase: Phase<H>, code: Option<i32>, other: Option<i32>)
    ensures
        on_poll_tick(phase, PollStatusView::Terminated(code)) == on_poll_tick(
            phase,
            PollStatusView::Terminated(other),
        ),
{
}

} // verus!
