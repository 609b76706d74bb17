//! The upload schedule as a state machine.
//!
//! The background task of an agent initializes the profiler, then uploads a
//! report at every tick until it is asked to stop, uploads one last report and
//! exits. This module decides; it does not act. The caller performs the action
//! that a step returns and comes back with the event that followed.

use crate::error::PyroscopeError;
use vstd::prelude::*;

verus! {

/// The four states of an agent's life.
#[derive(Clone, Copy, PartialEq, Eq, Structural, Debug)]
pub enum Lifecycle {
    /// Not started.
    Idle,
    /// Started: capturing and uploading.
    Running,
    /// Asked to stop: the last report is on its way.
    Stopping,
    /// The background task has ended.
    Stopped,
}

/// Where the background task stands.
#[derive(Clone, Copy, PartialEq, Eq, Debug)]
pub enum Phase {
    /// No task.
    Idle,
    /// The profiler is being initialized and started.
    Starting {
        /// A stop was requested meanwhile.
        stop_requested: bool,
    },
    /// Between uploads: waiting for the next tick or a stop request.
    Waiting,
    /// The upload of a tick is in flight.
    Uploading {
        /// A stop was requested meanwhile.
        stop_requested: bool,
    },
    /// The last upload, after a stop request, is in flight.
    Flushing,
    /// The task has ended, with this result.
    Stopped {
        /// What the task ended with.
        result: Result<(), PyroscopeError>,
    },
}

/// What can happen to the background task.
#[derive(Clone, Copy, PartialEq, Eq, Debug)]
pub enum Event {
    /// Initializing and starting the profiler has ended, well or not.
    CaptureReady(Result<(), PyroscopeError>),
    /// The upload interval has passed.
    Tick,
    /// The owner of the agent asked it to stop.
    StopRequested,
    /// Capturing and uploading one report has ended, well or not. A report
    /// that was skipped because it was empty has ended well.
    CycleDone(Result<(), PyroscopeError>),
}

/// What the background task is to do next.
#[derive(Clone, Copy, PartialEq, Eq, Structural, Debug)]
pub enum Action {
    /// Nothing new: go on with what is in progress.
    Nothing,
    /// Initialize and start the profiler, then report `CaptureReady`.
    InitCapture,
    /// Wait for the next tick or a stop request, then report which it was.
    Wait,
    /// Capture a report and upload it, then report `CycleDone`.
    Upload,
    /// Exit: the task has ended.
    Exit,
}

impl Phase {
    /// The state of the agent's life that this phase belongs to.
    pub open spec fn lifecycle(self) -> Lifecycle {
        match self {
            Phase::Idle => Lifecycle::Idle,
            Phase::Starting { .. } | Phase::Waiting | Phase::Uploading { .. } => Lifecycle::Running,
            Phase::Flushing => Lifecycle::Stopping,
            Phase::Stopped { .. } => Lifecycle::Stopped,
        }
    }

    /// What the background task is busy with in this phase.
    pub open spec fn in_progress(self) -> Action {
        match self {
            Phase::Idle => Action::Nothing,
            Phase::Starting { .. } => Action::InitCapture,
            Phase::Waiting => Action::Wait,
            Phase::Uploading { .. } | Phase::Flushing => Action::Upload,
            Phase::Stopped { .. } => Action::Exit,
        }
    }

    /// Whether an upload is in flight.
    pub open spec fn in_flight(self) -> bool {
        self is Uploading || self is Flushing
    }

    /// Whether a stop request has been taken note of, or the task has ended.
    pub open spec fn stopping(self) -> bool {
        match self {
            Phase::Starting { stop_requested } => stop_requested,
            Phase::Uploading { stop_requested } => stop_requested,
            Phase::Flushing => true,
            Phase::Stopped { .. } => true,
            _ => false,
        }
    }

    /// At most how many more of the things in progress have to end before a
    /// task that was asked to stop has ended.
    pub open spec fn steps_to_stop(self) -> nat {
        match self {
            Phase::Stopped { .. } => 0,
            Phase::Flushing => 1,
            _ => 2,
        }
    }

    /// Whether `event` is the end of what this phase has in progress.
    pub open spec fn awaits(self, event: Event) -> bool {
        match self {
            Phase::Starting { .. } => event is CaptureReady,
            Phase::Uploading { .. } | Phase::Flushing => event is CycleDone,
            _ => false,
        }
    }
}

/// The transition of the background task: the phase after `event`, and what to
/// do next.
///
/// - While the profiler starts, a failure ends the task with `CaptureInit`;
///   success leads to waiting, or straight to the last upload if a stop was
///   requested meanwhile.
/// - While waiting, a tick begins an upload and a stop request begins the last
///   upload.
/// - While an upload is in flight, a tick is ignored and a stop request is
///   taken note of. When the upload has ended, whether well or not, the task
///   waits again, or begins the last upload if a stop was requested.
/// - When the last upload has ended, the task has ended with its result.
/// - Every other event changes nothing.
pub open spec fn transition(phase: Phase, event: Event) -> (Phase, Action) {
    match (phase, event) {
        (Phase::Starting { stop_requested }, Event::CaptureReady(Ok(_))) => if stop_requested {
            (Phase::Flushing, Action::Upload)
        } else {
            (Phase::Waiting, Action::Wait)
        },
        (Phase::Starting { .. }, Event::CaptureReady(Err(_))) => (
            Phase::Stopped { result: Err(PyroscopeError::CaptureInit) },
            Action::Exit,
        ),
        (Phase::Starting { .. }, Event::StopRequested) => (
            Phase::Starting { stop_requested: true },
            Action::Nothing,
        ),
        (Phase::Waiting, Event::Tick) => (Phase::Uploading { stop_requested: false }, Action::Upload),
        (Phase::Waiting, Event::StopRequested) => (Phase::Flushing, Action::Upload),
        (Phase::Uploading { stop_requested }, Event::CycleDone(_)) => if stop_requested {
            (Phase::Flushing, Action::Upload)
        } else {
            (Phase::Waiting, Action::Wait)
        },
        (Phase::Uploading { .. }, Event::StopRequested) => (
            Phase::Uploading { stop_requested: true },
            Action::Nothing,
        ),
        (Phase::Flushing, Event::CycleDone(result)) => (Phase::Stopped { result }, Action::Exit),
        (Phase::Stopped { result }, _) => (Phase::Stopped { result }, Action::Exit),
        _ => (phase, Action::Nothing),
    }
}

/// The phase after `event`.
pub open spec fn next_phase(phase: Phase, event: Event) -> Phase {
    transition(phase, event).0
}

/// What to do after `event`.
pub open spec fn next_action(phase: Phase, event: Event) -> Action {
    transition(phase, event).1
}

/// The phase after a sequence of events.
pub open spec fn run(phase: Phase, events: Seq<Event>) -> Phase
    decreases events.len(),
{
    if events.len() == 0 {
        phase
    } else {
        next_phase(run(phase, events.drop_last()), events.last())
    }
}

/// How many uploads were begun in the course of a sequence of events.
pub open spec fn uploads_begun(phase: Phase, events: Seq<Event>) -> nat
    decreases events.len(),
{
    if events.len() == 0 {
        0
    } else {
        let before = run(phase, events.drop_last());
        uploads_begun(phase, events.drop_last()) + if next_action(before, events.last())
            == Action::Upload {
            1nat
        } else {
            0nat
        }
    }
}

/// How many uploads ended in the course of a sequence of events.
pub open spec fn uploads_ended(phase: Phase, events: Seq<Event>) -> nat
    decreases events.len(),
{
    if events.len() == 0 {
        0
    } else {
        let before = run(phase, events.drop_last());
        uploads_ended(phase, events.drop_last()) + if before.in_flight() && events.last()
            is CycleDone {
            1nat
        } else {
            0nat
        }
    }
}

/// How many times, in the course of a sequence of events, the thing in
/// progress ended.
pub open spec fn completions(phase: Phase, events: Seq<Event>) -> nat
    decreases events.len(),
{
    if events.len() == 0 {
        0
    } else {
        let before = run(phase, events.drop_last());
        completions(phase, events.drop_last()) + if before.awaits(events.last()) {
            1nat
        } else {
            0nat
        }
    }
}

/// Takes one step of the background task.
pub fn step(phase: Phase, event: Event) -> (next: (Phase, Action))
    ensures
        next == transition(phase, event),
{
    match phase {
        Phase::Idle => (phase, Action::Nothing),
        Phase::Starting { stop_requested } => match event {
            Event::CaptureReady(Ok(_)) => if stop_requested {
                (Phase::Flushing, Action::Upload)
            } else {
                (Phase::Waiting, Action::Wait)
            },
            Event::CaptureReady(Err(_)) => (
                Phase::Stopped { result: Err(PyroscopeError::CaptureInit) },
                Action::Exit,
            ),
            Event::StopRequested => (Phase::Starting { stop_requested: true }, Action::Nothing),
            _ => (phase, Action::Nothing),
        },
        Phase::Waiting => match event {
            Event::Tick => (Phase::Uploading { stop_requested: false }, Action::Upload),
            Event::StopRequested => (Phase::Flushing, Action::Upload),
            _ => (phase, Action::Nothing),
        },
        Phase::Uploading { stop_requested } => match event {
            Event::CycleDone(_) => if stop_requested {
                (Phase::Flushing, Action::Upload)
            } else {
                (Phase::Waiting, Action::Wait)
            },
            Event::StopRequested => (Phase::Uploading { stop_requested: true }, Action::Nothing),
            _ => (phase, Action::Nothing),
        },
        Phase::Flushing => match event {
            Event::CycleDone(result) => (Phase::Stopped { result }, Action::Exit),
            _ => (phase, Action::Nothing),
        },
        Phase::Stopped { .. } => (phase, Action::Exit),
    }
}

/// The state of the agent's life that a phase belongs to.
pub fn lifecycle_of(phase: Phase) -> (state: Lifecycle)
    ensures
        state == phase.lifecycle(),
{
    match phase {
        Phase::Idle => Lifecycle::Idle,
        Phase::Starting { .. } | Phase::Waiting | Phase::Uploading { .. } => Lifecycle::Running,
        Phase::Flushing => Lifecycle::Stopping,
        Phase::Stopped { .. } => Lifecycle::Stopped,
    }
}

/// What the background task is busy with in a phase.
pub fn in_progress_of(phase: Phase) -> (action: Action)
    ensures
        action == phase.in_progress(),
{
    match phase {
        Phase::Idle => Action::Nothing,
        Phase::Starting { .. } => Action::InitCapture,
        Phase::Waiting => Action::Wait,
        Phase::Uploading { .. } | Phase::Flushing => Action::Upload,
        Phase::Stopped { .. } => Action::Exit,
    }
}

/// A step asks for nothing that the next phase is not busy with: its action is
/// `Nothing`, or what is in progress in the phase it leads to. And a phase is
/// busy with an upload exactly when one is in flight.
pub proof fn lemma_action_is_in_progress(phase: Phase, event: Event)
    ensures
        next_action(phase, event) == Action::Nothing || next_action(phase, event) == next_phase(
            phase,
            event,
        ).in_progress(),
        phase.in_flight() <==> phase.in_progress() == Action::Upload,
{
}

/// Uploads never overlap. Whatever events arrive in whatever order, an upload
/// is begun only when none is in flight, or at the very moment the one in
/// flight has ended: the uploads begun are the uploads ended, plus the one in
/// flight if there is one.
pub proof fn lemma_single_flight(phase: Phase, events: Seq<Event>)
    requires
        !phase.in_flight(),
    ensures
        uploads_begun(phase, events) == uploads_ended(phase, events) + if run(
            phase,
            events,
        ).in_flight() {
            1nat
        } else {
            0nat
        },
    decreases events.len(),
{
    if events.len() > 0 {
        lemma_single_flight(phase, events.drop_last());
    }
}

/// A task that is asked to stop does stop. Once a stop request has been taken
/// note of it is never forgotten; each time the thing in progress ends, the
/// task is closer to its end; nothing else moves it; and at most two such
/// steps are left, none only when the task has ended.
pub proof fn lemma_stop_terminates(phase: Phase, event: Event)
    requires
        phase.lifecycle() != Lifecycle::Idle,
    ensures
        next_phase(phase, Event::StopRequested).stopping(),
        phase.stopping() ==> next_phase(phase, event).stopping(),
        phase.stopping() && phase.awaits(event) ==> next_phase(phase, event).steps_to_stop()
            < phase.steps_to_stop(),
        phase.stopping() && !phase.awaits(event) ==> next_phase(phase, event) == phase,
        phase.steps_to_stop() <= 2,
        phase.steps_to_stop() == 0 <==> phase is Stopped,
{
}

/// A task that was asked to stop has ended as soon as the things in progress
/// have ended as often as there were steps left, which is at most twice: the
/// upload in flight, or the start of the profiler, and then the last upload.
/// What else happens in between does not matter.
pub proof fn lemma_stop_ends_the_task(phase: Phase, events: Seq<Event>)
    requires
        phase.stopping(),
    ensures
        run(phase, events).stopping(),
        run(phase, events).steps_to_stop() + completions(phase, events) <= phase.steps_to_stop(),
        completions(phase, events) >= phase.steps_to_stop() ==> run(phase, events) is Stopped,
    decreases events.len(),
{
    if events.len() > 0 {
        lemma_stop_ends_the_task(phase, events.drop_last());
        lemma_stop_terminates(run(phase, events.drop_last()), events.last());
    }
}

/// A task that was asked to stop ends with what its last upload ended with:
/// the failure of that upload if it failed, success if it did not.
pub proof fn lemma_last_upload_decides(result: Result<(), PyroscopeError>)
    ensures
        transition(Phase::Flushing, Event::CycleDone(result)) == (
            Phase::Stopped { result },
            Action::Exit,
        ),
{
}

/// A profiler that does not start ends the task at once, with `CaptureInit`,
/// and no upload is begun from then on, whatever happens.
pub proof fn lemma_failed_start_uploads_nothing(
    stop_requested: bool,
    failure: PyroscopeError,
    events: Seq<Event>,
)
    ensures
        ({
            let ended = transition(
                Phase::Starting { stop_requested },
                Event::CaptureReady(Err(failure)),
            );
            &&& ended == (Phase::Stopped { result: Err(PyroscopeError::CaptureInit) }, Action::Exit)
            &&& run(ended.0, events) == ended.0
            &&& uploads_begun(ended.0, events) == 0
        }),
    decreases events.len(),
{
    if events.len() > 0 {
        lemma_failed_start_uploads_nothing(stop_requested, failure, events.drop_last());
    }
}

/// A failed upload at a tick does not end the task: it waits for the next
/// tick as after a good one.
pub proof fn lemma_tick_failure_is_not_fatal(result: Result<(), PyroscopeError>)
    ensures
        transition(Phase::Uploading { stop_requested: false }, Event::CycleDone(result)) == (
            Phase::Waiting,
            Action::Wait,
        ),
{
}

} // verus!
