//! One supervised run of the daemon, as a state machine.
//!
//! The program that drives a run spawns the daemon, reads its diagnostic
//! stream and kills its process tree; after each of these it reports what
//! happened as a [`RunEvent`], and [`Run::step`] answers with what to do next.

use crate::classifier::{line_signal, FatalKind, LineClassifier, Signal};
use crate::status::Status;
use crate::tracker::{StallTracker, TrackerState};
use vstd::prelude::*;

verus! {

/// The choices that a run leaves to its owner.
#[derive(Clone, Copy, Debug, PartialEq, Eq, Structural)]
pub struct RunConfig {
    /// The run counts as idled once the idle count is above this.
    pub idle_limit: u32,
    /// Whether a daemon that closes its stream by itself has crashed (and is
    /// restarted) or has stopped cleanly.
    pub restart_on_exit: bool,
    /// Whether a line that ends the run is still mirrored to the operator.
    pub echo_flagged: bool,
}

impl RunConfig {
    /// The status of a run whose daemon closed its stream by itself.
    pub open spec fn exit_status(self) -> Status {
        if self.restart_on_exit {
            Status::Crashed
        } else {
            Status::Clean
        }
    }
}

impl Default for RunConfig {
    /// Five idle observations are tolerated, a daemon that leaves by itself
    /// has stopped cleanly, and a line that ends the run is not mirrored.
    fn default() -> (config: RunConfig)
        ensures
            config == (RunConfig { idle_limit: 5, restart_on_exit: false, echo_flagged: false }),
    {
        RunConfig { idle_limit: 5, restart_on_exit: false, echo_flagged: false }
    }
}

/// Where a run stands.
#[derive(Clone, Copy, Debug, PartialEq, Eq, Structural)]
pub enum RunPhase {
    /// The daemon has not been launched yet.
    Starting,
    /// The daemon runs and its stream is being read.
    Reading,
    /// The status is decided; the process tree is being torn down.
    TearingDown,
    /// The run is over and holds nothing any more.
    Finished,
}

/// What the driving program reports to a run.
#[derive(Clone, Copy, Debug, PartialEq, Eq, Structural)]
pub enum RunEvent {
    /// The daemon was launched and its diagnostic stream is open.
    Spawned,
    /// The daemon could not be launched.
    SpawnFailed,
    /// A line arrived on the stream and carried this signal.
    Line(Signal),
    /// The daemon closed its stream.
    StreamClosed,
    /// Reading the stream failed.
    ReadFailed,
    /// The process tree is gone and the daemon has been reaped.
    TornDown,
}

/// What a run asks the driving program to do.
#[derive(Clone, Copy, Debug, PartialEq, Eq, Structural)]
pub enum RunAction {
    /// Mirror the line just reported if `echo` says so, then read the next
    /// line.
    Read { echo: bool },
    /// Mirror the line just reported if `echo` says so, then close the
    /// stream, kill what is left of the daemon's process tree, reap the daemon
    /// and report `TornDown`.
    Teardown { echo: bool },
    /// The run is over with this status.
    Finish(Status),
    /// The event has no place in the current phase: do nothing.
    Ignore,
}

/// A run as a mathematical value.
pub struct RunState {
    pub config: RunConfig,
    pub phase: RunPhase,
    pub status: Status,
    pub tracker: TrackerState,
}

impl RunState {
    /// A run before the daemon is launched.
    pub open spec fn initial(config: RunConfig) -> RunState {
        RunState {
            config,
            phase: RunPhase::Starting,
            status: Status::Unknown,
            tracker: TrackerState::fresh(),
        }
    }

    /// What holds of every run that started from [`RunState::initial`]: the
    /// status is open exactly as long as nothing ended the run, and a run that
    /// is still reading has not gone over its idle limit.
    pub open spec fn well_formed(self) -> bool {
        match self.phase {
            RunPhase::Starting => self.status is Unknown && self.tracker == TrackerState::fresh(),
            RunPhase::Reading => self.status is Unknown && self.tracker.idle_count
                <= self.config.idle_limit,
            RunPhase::TearingDown => self.status !is Unknown,
            RunPhase::Finished => self.status !is Unknown,
        }
    }

    /// Whether the daemon of this run may still be alive.
    pub open spec fn child_may_live(self) -> bool {
        self.phase is Reading || self.phase is TearingDown
    }

    /// The run with its status decided and its teardown begun.
    pub open spec fn latched(self, status: Status) -> RunState {
        RunState { phase: RunPhase::TearingDown, status, ..self }
    }

    /// The run after a line with the given signal, and what to do about it.
    pub open spec fn on_signal(self, signal: Signal) -> (RunState, RunAction) {
        match signal {
            Signal::NoSignal => (self, RunAction::Read { echo: true }),
            Signal::FatalMarker(FatalKind::DbLocked) => (
                self.latched(Status::DbLocked),
                RunAction::Teardown { echo: self.config.echo_flagged },
            ),
            Signal::Progress(value) => {
                let tracker = self.tracker.observe(value);
                let seen = RunState { tracker, ..self };
                if tracker.idle_count > self.config.idle_limit {
                    (seen.latched(Status::Idled), RunAction::Teardown { echo: self.config.echo_flagged })
                } else {
                    (seen, RunAction::Read { echo: true })
                }
            },
        }
    }

    /// The run after an event, and what to do next.
    pub open spec fn step(self, event: RunEvent) -> (RunState, RunAction) {
        match (self.phase, event) {
            (RunPhase::Starting, RunEvent::Spawned) => (
                RunState { phase: RunPhase::Reading, ..self },
                RunAction::Read { echo: false },
            ),
            (RunPhase::Starting, RunEvent::SpawnFailed) => (
                RunState { phase: RunPhase::Finished, status: Status::Crashed, ..self },
                RunAction::Finish(Status::Crashed),
            ),
            (RunPhase::Reading, RunEvent::Line(signal)) => self.on_signal(signal),
            (RunPhase::Reading, RunEvent::StreamClosed) => (
                self.latched(self.config.exit_status()),
                RunAction::Teardown { echo: false },
            ),
            (RunPhase::Reading, RunEvent::ReadFailed) => (
                self.latched(Status::Crashed),
                RunAction::Teardown { echo: false },
            ),
            (RunPhase::TearingDown, RunEvent::TornDown) => (
                RunState { phase: RunPhase::Finished, ..self },
                RunAction::Finish(self.status),
            ),
            _ => (self, RunAction::Ignore),
        }
    }

    /// The run after a sequence of events, first to last.
    pub open spec fn after(self, events: Seq<RunEvent>) -> RunState
        decreases events.len(),
    {
        if events.len() == 0 {
            self
        } else {
            self.after(events.drop_last()).step(events.last()).0
        }
    }
}

/// One run of the daemon.
pub struct Run {
    config: RunConfig,
    phase: RunPhase,
    status: Status,
    tracker: StallTracker,
}

impl View for Run {
    type V = RunState;

    closed spec fn view(&self) -> RunState {
        RunState {
            config: self.config,
            phase: self.phase,
            status: self.status,
            tracker: self.tracker@,
        }
    }
}

impl Run {
    #[verifier::type_invariant]
    spec fn valid(self) -> bool {
        self@.well_formed()
    }

    /// A run that has not launched the daemon yet.
    pub fn new(config: RunConfig) -> (run: Run)
        ensures
            run@ == RunState::initial(config),
    {
        Run {
            config,
            phase: RunPhase::Starting,
            status: Status::Unknown,
            tracker: StallTracker::new(),
        }
    }

    /// The choices this run was made with.
    pub fn config(&self) -> (config: RunConfig)
        ensures
            config == self@.config,
    {
        self.config
    }

    /// Where the run stands.
    pub fn phase(&self) -> (phase: RunPhase)
        ensures
            phase == self@.phase,
    {
        self.phase
    }

    /// The status of the run: `Unknown` until something ends it, and the
    /// terminal status from then on.
    pub fn status(&self) -> (status: Status)
        ensures
            status == self@.status,
    {
        self.status
    }

    /// The progress value seen last in this run.
    pub fn last_value(&self) -> (value: u32)
        ensures
            value == self@.tracker.last_value,
    {
        self.tracker.last_value()
    }

    /// The idle count of this run.
    pub fn idle_count(&self) -> (count: u64)
        ensures
            count == self@.tracker.idle_count,
    {
        self.tracker.idle_count()
    }

    /// Whether the run is over.
    pub fn is_finished(&self) -> (done: bool)
        ensures
            done == (self@.phase is Finished),
    {
        match self.phase {
            RunPhase::Finished => true,
            _ => false,
        }
    }

    /// Takes in one event and says what to do next.
    pub fn step(&mut self, event: RunEvent) -> (action: RunAction)
        ensures
            (final(self)@, action) == old(self)@.step(event),
            final(self)@.well_formed(),
    {
        proof {
            use_type_invariant(&*self);
        }
        let config = self.config;
        let status = self.status;
        let tracker = self.tracker;
        match (self.phase, event) {
            (RunPhase::Starting, RunEvent::Spawned) => {
                *self = Run { config, phase: RunPhase::Reading, status, tracker };
                RunAction::Read { echo: false }
            },
            (RunPhase::Starting, RunEvent::SpawnFailed) => {
                *self = Run { config, phase: RunPhase::Finished, status: Status::Crashed, tracker };
                RunAction::Finish(Status::Crashed)
            },
            (RunPhase::Reading, RunEvent::Line(signal)) => match signal {
                Signal::NoSignal => RunAction::Read { echo: true },
                Signal::FatalMarker(FatalKind::DbLocked) => {
                    *self = Run {
                        config,
                        phase: RunPhase::TearingDown,
                        status: Status::DbLocked,
                        tracker,
                    };
                    RunAction::Teardown { echo: config.echo_flagged }
                },
                Signal::Progress(value) => {
                    let mut seen = tracker;
                    seen.observe(value);
                    if seen.exceeds(config.idle_limit) {
                        *self = Run {
                            config,
                            phase: RunPhase::TearingDown,
                            status: Status::Idled,
                            tracker: seen,
                        };
                        RunAction::Teardown { echo: config.echo_flagged }
                    } else {
                        *self = Run { config, phase: RunPhase::Reading, status, tracker: seen };
                        RunAction::Read { echo: true }
                    }
                },
            },
            (RunPhase::Reading, RunEvent::StreamClosed) => {
                let status = if config.restart_on_exit {
                    Status::Crashed
                } else {
                    Status::Clean
                };
                *self = Run { config, phase: RunPhase::TearingDown, status, tracker };
                RunAction::Teardown { echo: false }
            },
            (RunPhase::Reading, RunEvent::ReadFailed) => {
                *self = Run {
                    config,
                    phase: RunPhase::TearingDown,
                    status: Status::Crashed,
                    tracker,
                };
                RunAction::Teardown { echo: false }
            },
            (RunPhase::TearingDown, RunEvent::TornDown) => {
                *self = Run { config, phase: RunPhase::Finished, status, tracker };
                RunAction::Finish(status)
            },
            _ => RunAction::Ignore,
        }
    }

    /// Classifies a line that arrived on the stream and takes it in as an
    /// event. The signal comes back with the action, so that the caller can
    /// log it.
    pub fn on_line(&mut self, classifier: &LineClassifier, line: &str) -> (outcome: (
        Signal,
        RunAction,
    ))
        ensures
            outcome.0 == line_signal(line@),
            (final(self)@, outcome.1) == old(self)@.step(RunEvent::Line(line_signal(line@))),
            final(self)@.well_formed(),
    {
        let signal = classifier.classify(line);
        let action = self.step(RunEvent::Line(signal));
        (signal, action)
    }
}

/// Every step keeps a run well formed.
pub proof fn lemma_step_keeps_well_formed(run: RunState, event: RunEvent)
    requires
        run.well_formed(),
    ensures
        run.step(event).0.well_formed(),
{
}

/// Whatever is reported to a run, and in whatever order, the run stays well
/// formed.
pub proof fn lemma_after_keeps_well_formed(run: RunState, events: Seq<RunEvent>)
    requires
        run.well_formed(),
    ensures
        run.after(events).well_formed(),
    decreases events.len(),
{
    if events.len() > 0 {
        lemma_after_keeps_well_formed(run, events.drop_last());
    }
}

/// Once the status of a run is decided it never changes, and the run takes in
/// no further line: a line that arrives later is ignored and leaves the run
/// as it is.
pub proof fn lemma_decided_run_is_deaf(run: RunState, event: RunEvent)
    requires
        run.well_formed(),
        run.status !is Unknown,
    ensures
        run.step(event).0.status == run.status,
        run.step(event).0.tracker == run.tracker,
        event is Line ==> run.step(event) == (run, RunAction::Ignore),
{
}

/// A run reports its end only when no daemon of it can be alive: either none
/// was ever launched, or the teardown has been reported complete. The status
/// it reports is a terminal one.
pub proof fn lemma_finish_follows_teardown(run: RunState, event: RunEvent)
    requires
        run.well_formed(),
        run.step(event).1 is Finish,
    ensures
        (run.phase is Starting && event is SpawnFailed) || (run.phase is TearingDown
            && event is TornDown),
        !run.step(event).0.child_may_live(),
        run.step(event).1 == RunAction::Finish(run.step(event).0.status),
        run.step(event).0.status !is Unknown,
{
}

/// A finished run stays finished: no event changes it or asks for anything.
pub proof fn lemma_finished_run_is_final(run: RunState, events: Seq<RunEvent>)
    requires
        run.phase is Finished,
    ensures
        run.after(events) == run,
    decreases events.len(),
{
    if events.len() > 0 {
        lemma_finished_run_is_final(run, events.drop_last());
    }
}

/// A line with the lock marker ends a reading run at once: the status is
/// `DbLocked`, the tree is to be torn down, and whatever lines follow do not
/// change the run.
pub proof fn lemma_lock_marker_ends_run(run: RunState, later: Seq<Signal>)
    requires
        run.well_formed(),
        run.phase is Reading,
    ensures
        ({
            let (locked, action) = run.step(RunEvent::Line(Signal::FatalMarker(FatalKind::DbLocked)));
            &&& locked.status is DbLocked
            &&& action == RunAction::Teardown { echo: run.config.echo_flagged }
            &&& locked.after(later.map_values(|s: Signal| RunEvent::Line(s))) == locked
        }),
    decreases later.len(),
{
    let locked = run.step(RunEvent::Line(Signal::FatalMarker(FatalKind::DbLocked))).0;
    let events = later.map_values(|s: Signal| RunEvent::Line(s));
    if later.len() > 0 {
        lemma_lock_marker_ends_run(run, later.drop_last());
        assert(events.drop_last() == later.drop_last().map_values(|s: Signal| RunEvent::Line(s)));
    }
}

/// `count` lines that all report the progress value `value`.
pub open spec fn progress_lines(value: u32, count: nat) -> Seq<RunEvent> {
    Seq::new(count, |i: int| RunEvent::Line(Signal::Progress(value)))
}

/// A daemon that keeps reporting one value is found idle by the line that
/// takes the idle count over the limit, and by no line before it. For a value
/// that is new to the run and a limit of `n`, the first `n + 1` lines leave
/// the run reading, with an idle count one below the number of lines; line
/// `n + 2` ends it with the status `Idled`, and so it stays.
pub proof fn lemma_stall_is_found(run: RunState, value: u32, count: nat)
    requires
        run.well_formed(),
        run.phase is Reading,
        value != run.tracker.last_value,
        count >= 1,
    ensures
        count <= run.config.idle_limit + 1 ==> run.after(progress_lines(value, count)) == (RunState {
            tracker: TrackerState { last_value: value, idle_count: (count - 1) as nat },
            ..run
        }),
        count >= run.config.idle_limit + 2 ==> run.after(progress_lines(value, count)) == (RunState {
            tracker: TrackerState {
                last_value: value,
                idle_count: (run.config.idle_limit + 1) as nat,
            },
            ..run.latched(Status::Idled)
        }),
    decreases count,
{
    let lines = progress_lines(value, count);
    assert(lines.drop_last() == progress_lines(value, (count - 1) as nat));
    if count == 1 {
        assert(run.after(lines.drop_last()) == run);
    } else {
        lemma_stall_is_found(run, value, (count - 1) as nat);
    }
}

} // verus!
