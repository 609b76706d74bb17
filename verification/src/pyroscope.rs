//! The agent: how it is configured, started, driven and stopped.
//!
//! An agent is built once and then goes through its life as often as wanted:
//! idle, running, stopping, stopped, idle again. It never blocks and never
//! touches a clock or the network. `start`, `handle` and `stop` decide what
//! happens next; `launch` and `capture` do the profiler's part of it on a
//! backend; waiting and sending are left to the caller.

use crate::backends::Backend;
use crate::error::PyroscopeError;
pub use crate::ingest::pyroscope_ingest;
use crate::ingest::{
    ingest_request, window_until, Cycle, CycleView, Report, UPLOAD_INTERVAL_SECS,
};
use crate::scheduler::{
    in_progress_of, lifecycle_of, step, transition, Action, Event, Lifecycle, Phase,
};
pub use crate::tags::merge_tags_with_app_name;
use crate::tags::{merged_name, Tag, Tags};
use crate::text::texts;
use libc::c_int;
use vstd::prelude::*;

verus! {

/// The sampling frequency of an agent whose builder was given none.
pub const DEFAULT_FREQUENCY: c_int = 99;

/// Collects what an agent is made from.
pub struct PyroscopeAgentBuilder {
    url: String,
    application_name: String,
    tags: Tags,
    frequency: c_int,
    blocklist: Vec<String>,
}

/// A `PyroscopeAgentBuilder` as the contracts see it.
pub struct BuilderView {
    pub url: Seq<char>,
    pub application_name: Seq<char>,
    pub tags: Seq<Tag>,
    pub frequency: int,
    pub blocklist: Seq<Seq<char>>,
}

impl View for PyroscopeAgentBuilder {
    type V = BuilderView;

    closed spec fn view(&self) -> BuilderView {
        BuilderView {
            url: self.url@,
            application_name: self.application_name@,
            tags: self.tags@,
            frequency: self.frequency as int,
            blocklist: texts(self.blocklist@),
        }
    }
}

impl PyroscopeAgentBuilder {
    /// A builder for an agent that reports to the server at `url` under
    /// `application_name`, with no tags, nothing blocked and the default
    /// sampling frequency.
    pub fn new(url: &str, application_name: &str) -> (builder: Self)
        ensures
            builder@ == (BuilderView {
                url: url@,
                application_name: application_name@,
                tags: Seq::empty(),
                frequency: DEFAULT_FREQUENCY as int,
                blocklist: Seq::empty(),
            }),
    {
        let builder = Self {
            url: String::from_str(url),
            application_name: String::from_str(application_name),
            tags: Tags::new(),
            frequency: DEFAULT_FREQUENCY,
            blocklist: Vec::new(),
        };
        assert(builder@.blocklist =~= Seq::<Seq<char>>::empty());
        builder
    }

    /// Sets how many samples a second the profiler takes.
    pub fn frequency(self, frequency: c_int) -> (builder: Self)
        ensures
            builder@ == (BuilderView { frequency: frequency as int, ..self@ }),
    {
        Self { frequency, ..self }
    }

    /// Sets the names of the libraries in which the profiler does not sample.
    pub fn blocklist(self, blocklist: &[String]) -> (builder: Self)
        ensures
            builder@ == (BuilderView { blocklist: texts(blocklist@), ..self@ }),
    {
        let mut names: Vec<String> = Vec::new();
        let mut i: usize = 0;
        while i < blocklist.len()
            invariant
                i <= blocklist.len(),
                texts(names@) == texts(blocklist@).take(i as int),
            decreases blocklist.len() - i,
        {
            let name = blocklist[i].clone();
            let ghost before = texts(names@);
            names.push(name);
            assert(texts(blocklist@).take(i + 1) =~= before.push(blocklist@[i as int]@));
            i += 1;
        }
        assert(texts(blocklist@).take(i as int) =~= texts(blocklist@));
        Self { blocklist: names, ..self }
    }

    /// Sets the tags that go into the series name.
    pub fn tags(self, tags: Tags) -> (builder: Self)
        ensures
            builder@ == (BuilderView { tags: tags@, ..self@ }),
    {
        Self { tags, ..self }
    }

    /// Makes the agent. Its series name is worked out here, once; it is idle
    /// until it is started.
    pub fn build(self) -> (agent: PyroscopeAgent)
        ensures
            agent@ == (AgentView {
                url: self@.url,
                application_name: merged_name(self@.application_name, self@.tags),
                sample_rate: self@.frequency,
                blocklist: self@.blocklist,
                phase: Phase::Idle,
            }),
    {
        let application_name = merge_tags_with_app_name(self.application_name, self.tags);
        PyroscopeAgent {
            url: self.url,
            application_name,
            sample_rate: self.frequency,
            blocklist: self.blocklist,
            phase: Phase::Idle,
        }
    }
}

/// A profiling agent: what it was built with, and where it stands in its life.
pub struct PyroscopeAgent {
    url: String,
    application_name: String,
    sample_rate: c_int,
    blocklist: Vec<String>,
    phase: Phase,
}

/// A `PyroscopeAgent` as the contracts see it.
pub struct AgentView {
    /// The address of the server.
    pub url: Seq<char>,
    /// The series name: the application name with the tags merged in.
    pub application_name: Seq<char>,
    /// Samples taken per second.
    pub sample_rate: int,
    /// The names of the libraries in which the profiler does not sample.
    pub blocklist: Seq<Seq<char>>,
    /// Where the background task stands.
    pub phase: Phase,
}

impl View for PyroscopeAgent {
    type V = AgentView;

    closed spec fn view(&self) -> AgentView {
        AgentView {
            url: self.url@,
            application_name: self.application_name@,
            sample_rate: self.sample_rate as int,
            blocklist: texts(self.blocklist@),
            phase: self.phase,
        }
    }
}

impl PyroscopeAgent {
    /// The address of the server.
    pub fn url(&self) -> (url: &str)
        ensures
            url@ == self@.url,
    {
        self.url.as_str()
    }

    /// The series name that the agent uploads under.
    pub fn application_name(&self) -> (name: &str)
        ensures
            name@ == self@.application_name,
    {
        self.application_name.as_str()
    }

    /// Samples taken per second.
    pub fn sample_rate(&self) -> (rate: c_int)
        ensures
            rate == self@.sample_rate,
    {
        self.sample_rate
    }

    /// The names of the libraries in which the profiler does not sample.
    pub fn blocklist(&self) -> (names: &Vec<String>)
        ensures
            texts(names@) == self@.blocklist,
    {
        &self.blocklist
    }

    /// Seconds to wait between two uploads.
    pub fn upload_interval(&self) -> (seconds: u64)
        ensures
            seconds == UPLOAD_INTERVAL_SECS,
    {
        UPLOAD_INTERVAL_SECS
    }

    /// Where the background task stands.
    pub fn phase(&self) -> (phase: Phase)
        ensures
            phase == self@.phase,
    {
        self.phase
    }

    /// The state of the agent's life.
    pub fn lifecycle(&self) -> (state: Lifecycle)
        ensures
            state == self@.phase.lifecycle(),
    {
        lifecycle_of(self.phase)
    }

    /// What the background task is busy with.
    pub fn in_progress(&self) -> (action: Action)
        ensures
            action == self@.phase.in_progress(),
    {
        in_progress_of(self.phase)
    }

    /// Starts an idle agent: its background task is to initialize the profiler
    /// next. An agent that is not idle is left as it is and says so.
    pub fn start(&mut self) -> (started: Result<(), PyroscopeError>)
        ensures
            old(self)@.phase is Idle ==> started is Ok && final(self)@ == (AgentView {
                phase: Phase::Starting { stop_requested: false },
                ..old(self)@
            }),
            !(old(self)@.phase is Idle) ==> started == Err::<(), PyroscopeError>(
                PyroscopeError::AlreadyRunning,
            ) && final(self)@ == old(self)@,
    {
        match self.phase {
            Phase::Idle => {
                self.phase = Phase::Starting { stop_requested: false };
                Ok(())
            },
            _ => Err(PyroscopeError::AlreadyRunning),
        }
    }

    /// Tells the agent what happened to its background task, and learns what
    /// the task is to do next.
    pub fn handle(&mut self, event: Event) -> (action: Action)
        ensures
            final(self)@ == (AgentView {
                phase: transition(old(self)@.phase, event).0,
                ..old(self)@
            }),
            action == transition(old(self)@.phase, event).1,
    {
        let (phase, action) = step(self.phase, event);
        self.phase = phase;
        action
    }

    /// Asks the agent to stop, without waiting for anything.
    ///
    /// - An idle agent was never started: `NotRunning`.
    /// - An agent whose task has ended is idle again; the task's failure, if it
    ///   ended with one, is handed out, else `Exit`.
    /// - Any other agent takes note of the request, and the task learns what
    ///   to do next: the last upload, or to go on with what is in progress.
    ///   When the task has ended, `stop` is to be called again for its result.
    pub fn stop(&mut self) -> (stopped: Result<Action, PyroscopeError>)
        ensures
            match old(self)@.phase {
                Phase::Idle => stopped == Err::<Action, PyroscopeError>(PyroscopeError::NotRunning)
                    && final(self)@ == old(self)@,
                Phase::Stopped { result } => final(self)@ == (AgentView {
                    phase: Phase::Idle,
                    ..old(self)@
                }) && stopped == match result {
                    Ok(_) => Ok::<Action, PyroscopeError>(Action::Exit),
                    Err(failure) => Err::<Action, PyroscopeError>(failure),
                },
                running => final(self)@ == (AgentView {
                    phase: transition(running, Event::StopRequested).0,
                    ..old(self)@
                }) && stopped == Ok::<Action, PyroscopeError>(
                    transition(running, Event::StopRequested).1,
                ),
            },
    {
        match self.phase {
            Phase::Idle => Err(PyroscopeError::NotRunning),
            Phase::Stopped { result } => {
                self.phase = Phase::Idle;
                match result {
                    Ok(_) => Ok(Action::Exit),
                    Err(failure) => Err(failure),
                }
            },
            _ => Ok(self.handle(Event::StopRequested)),
        }
    }

    /// Initializes and starts the profiler for an agent that has just been
    /// started, and takes the agent on from there: to waiting if the profiler
    /// runs, to its end with `CaptureInit` if it does not. In any other phase
    /// neither the backend nor the agent is touched.
    pub fn launch<B: Backend>(&mut self, backend: &mut B) -> (action: Action)
        ensures
            !(old(self)@.phase is Starting) ==> action == Action::Nothing && final(self)@ == old(
                self,
            )@,
            old(self)@.phase is Starting ==> {
                let ready = transition(old(self)@.phase, Event::CaptureReady(Ok(())));
                let failed = transition(
                    old(self)@.phase,
                    Event::CaptureReady(Err(PyroscopeError::CaptureInit)),
                );
                ||| (action == ready.1 && final(self)@ == (AgentView {
                    phase: ready.0,
                    ..old(self)@
                }))
                ||| (action == failed.1 && final(self)@ == (AgentView {
                    phase: failed.0,
                    ..old(self)@
                }))
            },
    {
        match self.phase {
            Phase::Starting { .. } => {
                let ready = match backend.initialize(self.sample_rate) {
                    Ok(_) => backend.start(),
                    Err(failure) => Err(failure),
                };
                self.handle(Event::CaptureReady(ready))
            },
            _ => Action::Nothing,
        }
    }

    /// Says what is to be done with what the profiler handed out when it was
    /// asked for a report that began at `start_time`.
    ///
    /// - If the profiler handed out no report, the upload has ended with
    ///   `CaptureSnapshot`.
    /// - An empty report is not sent: the upload has ended well.
    /// - Any other report is sent with the request that uploads it under the
    ///   agent's series name, for the window that `start_time` falls in. If
    ///   that window ends beyond the last second a `u64` can hold, the upload
    ///   has ended with `Ingest`.
    pub fn request_for(&self, reported: Result<Vec<u8>, PyroscopeError>, start_time: u64) -> (cycle:
        Cycle)
        ensures
            cycle@ == upload_of(self@, report_view(reported), start_time as nat),
    {
        let payload = match reported {
            Ok(payload) => payload,
            Err(_) => {
                return Cycle::Done(Err(PyroscopeError::CaptureSnapshot));
            },
        };
        if payload.len() > 0 && start_time - start_time % UPLOAD_INTERVAL_SECS > u64::MAX
            - UPLOAD_INTERVAL_SECS {
            return Cycle::Done(Err(PyroscopeError::Ingest));
        }
        let report = Report { start_time, sample_rate: self.sample_rate, payload };
        match pyroscope_ingest(report, self.url.as_str(), self.application_name.as_str()) {
            Some(request) => Cycle::Send(request),
            None => Cycle::Done(Ok(())),
        }
    }

    /// Asks the profiler for what it has sampled and says what is to be done
    /// with it, for an agent with an upload in flight. With no upload in
    /// flight the backend is not touched, and the answer is `NotRunning`.
    pub fn capture<B: Backend>(&self, backend: &mut B, start_time: u64) -> (cycle: Cycle)
        ensures
            !self@.phase.in_flight() ==> cycle@ == CycleView::Done(
                Err(PyroscopeError::NotRunning),
            ),
            self@.phase.in_flight() ==> exists|reported: Result<Seq<u8>, PyroscopeError>|
                cycle@ == #[trigger] upload_of(self@, reported, start_time as nat),
    {
        match self.phase {
            Phase::Uploading { .. } | Phase::Flushing => {
                let reported = backend.report();
                self.request_for(reported, start_time)
            },
            _ => Cycle::Done(Err(PyroscopeError::NotRunning)),
        }
    }
}

/// What the profiler handed out, as the contracts see it.
pub open spec fn report_view(reported: Result<Vec<u8>, PyroscopeError>) -> Result<
    Seq<u8>,
    PyroscopeError,
> {
    match reported {
        Ok(payload) => Ok(payload@),
        Err(failure) => Err(failure),
    }
}

/// What is to be done with what the profiler handed out: nothing more if it
/// handed out no report or an empty one, else to send the request that uploads
/// the report, if the window of the report can be written down.
pub open spec fn upload_of(
    agent: AgentView,
    reported: Result<Seq<u8>, PyroscopeError>,
    start_time: nat,
) -> CycleView {
    match reported {
        Err(_) => CycleView::Done(Err(PyroscopeError::CaptureSnapshot)),
        Ok(payload) => if payload.len() == 0 {
            CycleView::Done(Ok(()))
        } else if window_until(start_time) > u64::MAX {
            CycleView::Done(Err(PyroscopeError::Ingest))
        } else {
            CycleView::Send(
                ingest_request(
                    agent.url,
                    agent.application_name,
                    start_time,
                    agent.sample_rate,
                    payload,
                ),
            )
        },
    }
}

} // verus!
