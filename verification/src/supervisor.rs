//! The supervisor loop: run after run, with a countdown between them, until a
//! run ends cleanly or the operator asks for shutdown.
//!
//! The loop is a state machine. The driving program starts runs, sleeps and
//! watches for the operator's request; it reports what happened as a
//! [`LoopEvent`] together with the shutdown flag as it stands, and
//! [`Supervisor::step`] answers with what to do next.

use crate::status::Status;
use vstd::prelude::*;

verus! {

/// How long the supervisor waits before it starts the daemon again, by the
/// status of the run that ended.
#[derive(Clone, Copy, Debug, PartialEq, Eq, Structural)]
pub struct BackoffPolicy {
    /// Seconds to wait after a crash.
    pub crashed_secs: u64,
    /// Seconds to wait after the storage lock was found held.
    pub db_locked_secs: u64,
    /// Seconds to wait after the daemon idled.
    pub idled_secs: u64,
}

impl Default for BackoffPolicy {
    /// Five seconds after a crash or a held lock, three after idling.
    fn default() -> (policy: BackoffPolicy)
        ensures
            policy == (BackoffPolicy { crashed_secs: 5, db_locked_secs: 5, idled_secs: 3 }),
    {
        BackoffPolicy { crashed_secs: 5, db_locked_secs: 5, idled_secs: 3 }
    }
}

impl BackoffPolicy {
    /// The seconds to wait before the restart that follows a run with the
    /// given status; `None` where no restart follows.
    pub open spec fn delay_of(self, status: Status) -> Option<u64> {
        match status {
            Status::Crashed => Some(self.crashed_secs),
            Status::DbLocked => Some(self.db_locked_secs),
            Status::Idled => Some(self.idled_secs),
            Status::Clean => None,
            Status::Unknown => None,
        }
    }

    /// Executable form of [`BackoffPolicy::delay_of`].
    pub fn delay(&self, status: Status) -> (secs: Option<u64>)
        ensures
            secs == self.delay_of(status),
    {
        match status {
            Status::Crashed => Some(self.crashed_secs),
            Status::DbLocked => Some(self.db_locked_secs),
            Status::Idled => Some(self.idled_secs),
            Status::Clean => None,
            Status::Unknown => None,
        }
    }
}

/// Where the loop stands.
#[derive(Clone, Copy, Debug, PartialEq, Eq, Structural)]
pub enum LoopPhase {
    /// No run has been started yet.
    Idle,
    /// A run is under way.
    Running,
    /// A run ended with `status`; `remaining` seconds are left before the
    /// next one.
    Waiting { status: Status, remaining: u64 },
    /// The loop is over.
    Stopped,
}

/// What the driving program reports to the loop.
#[derive(Clone, Copy, Debug, PartialEq, Eq, Structural)]
pub enum LoopEvent {
    /// The supervisor is ready to start its first run.
    Begin,
    /// The run under way is over, torn down, with this status.
    RunFinished(Status),
    /// One second of a countdown has passed.
    SecondPassed,
}

/// What the loop asks the driving program to do.
#[derive(Clone, Copy, Debug, PartialEq, Eq, Structural)]
pub enum LoopAction {
    /// Start a run and report `RunFinished` when it is over.
    StartRun,
    /// Say that the daemon, after a run that ended with `status`, restarts
    /// in `remaining` seconds; sleep one second and report `SecondPassed`.
    Countdown { status: Status, remaining: u64 },
    /// Leave the loop.
    Stop,
    /// The event has no place in the current phase: do nothing.
    Ignore,
}

/// One report to the loop: the event, and whether shutdown was requested by
/// the time it is reported.
pub struct LoopInput {
    pub event: LoopEvent,
    pub shutdown: bool,
}

/// The loop as a mathematical value.
pub struct LoopState {
    pub policy: BackoffPolicy,
    pub phase: LoopPhase,
}

impl LoopState {
    /// The loop before its first run.
    pub open spec fn initial(policy: BackoffPolicy) -> LoopState {
        LoopState { policy, phase: LoopPhase::Idle }
    }

    /// A countdown always has at least one second left.
    pub open spec fn well_formed(self) -> bool {
        self.phase matches LoopPhase::Waiting { remaining, .. } ==> remaining >= 1
    }

    /// The loop, stopped.
    pub open spec fn stop(self) -> (LoopState, LoopAction) {
        (LoopState { phase: LoopPhase::Stopped, ..self }, LoopAction::Stop)
    }

    /// The loop with a run started.
    pub open spec fn start(self) -> (LoopState, LoopAction) {
        (LoopState { phase: LoopPhase::Running, ..self }, LoopAction::StartRun)
    }

    /// The loop counting down, or with a run started where no second is left.
    pub open spec fn wait(self, status: Status, remaining: u64) -> (LoopState, LoopAction) {
        if remaining == 0 {
            self.start()
        } else {
            (
                LoopState { phase: LoopPhase::Waiting { status, remaining }, ..self },
                LoopAction::Countdown { status, remaining },
            )
        }
    }

    /// The loop after an event, and what to do next. A shutdown request is
    /// honoured wherever a run would otherwise be started or waited for.
    pub open spec fn step(self, event: LoopEvent, shutdown: bool) -> (LoopState, LoopAction) {
        match (self.phase, event) {
            (LoopPhase::Idle, LoopEvent::Begin) => if shutdown {
                self.stop()
            } else {
                self.start()
            },
            (LoopPhase::Running, LoopEvent::RunFinished(status)) => match self.policy.delay_of(
                status,
            ) {
                None => self.stop(),
                Some(secs) => if shutdown {
                    self.stop()
                } else {
                    self.wait(status, secs)
                },
            },
            (LoopPhase::Waiting { status, remaining }, LoopEvent::SecondPassed) => if shutdown {
                self.stop()
            } else {
                self.wait(status, (remaining - 1) as u64)
            },
            _ => (self, LoopAction::Ignore),
        }
    }

    /// The loop after a sequence of reports, first to last.
    pub open spec fn after(self, inputs: Seq<LoopInput>) -> LoopState
        decreases inputs.len(),
    {
        if inputs.len() == 0 {
            self
        } else {
            let input = inputs.last();
            self.after(inputs.drop_last()).step(input.event, input.shutdown).0
        }
    }

    /// The number of runs that, after a sequence of reports, have been started
    /// and have not been reported finished. It is counted from what the loop
    /// asked for and what it was told, not from the phase it is in.
    pub open spec fn live_runs(self, inputs: Seq<LoopInput>) -> int
        decreases inputs.len(),
    {
        if inputs.len() == 0 {
            0
        } else {
            let input = inputs.last();
            let before = self.live_runs(inputs.drop_last());
            let action = self.after(inputs.drop_last()).step(input.event, input.shutdown).1;
            let ended: int = if input.event is RunFinished && before > 0 {
                1
            } else {
                0
            };
            let begun: int = if action is StartRun {
                1
            } else {
                0
            };
            before - ended + begun
        }
    }
}

/// `count` reports that a second has passed, with no shutdown requested.
pub open spec fn seconds(count: nat) -> Seq<LoopInput> {
    Seq::new(count, |i: int| LoopInput { event: LoopEvent::SecondPassed, shutdown: false })
}

/// The supervisor loop.
pub struct Supervisor {
    policy: BackoffPolicy,
    phase: LoopPhase,
}

impl View for Supervisor {
    type V = LoopState;

    closed spec fn view(&self) -> LoopState {
        LoopState { policy: self.policy, phase: self.phase }
    }
}

impl Supervisor {
    #[verifier::type_invariant]
    spec fn valid(self) -> bool {
        self@.well_formed()
    }

    /// A loop that has not started its first run.
    pub fn new(policy: BackoffPolicy) -> (supervisor: Supervisor)
        ensures
            supervisor@ == LoopState::initial(policy),
    {
        Supervisor { policy, phase: LoopPhase::Idle }
    }

    /// The policy this loop was made with.
    pub fn policy(&self) -> (policy: BackoffPolicy)
        ensures
            policy == self@.policy,
    {
        self.policy
    }

    /// Where the loop stands.
    pub fn phase(&self) -> (phase: LoopPhase)
        ensures
            phase == self@.phase,
    {
        self.phase
    }

    /// Whether the loop is over.
    pub fn is_stopped(&self) -> (stopped: bool)
        ensures
            stopped == (self@.phase is Stopped),
    {
        match self.phase {
            LoopPhase::Stopped => true,
            _ => false,
        }
    }

    /// Takes in one event, with the shutdown flag as it stands, and says what
    /// to do next.
    pub fn step(&mut self, event: LoopEvent, shutdown: bool) -> (action: LoopAction)
        ensures
            (final(self)@, action) == old(self)@.step(event, shutdown),
            final(self)@.well_formed(),
    {
        proof {
            use_type_invariant(&*self);
        }
        let policy = self.policy;
        match (self.phase, event) {
            (LoopPhase::Idle, LoopEvent::Begin) => {
                if shutdown {
                    self.halt()
                } else {
                    self.launch()
                }
            },
            (LoopPhase::Running, LoopEvent::RunFinished(status)) => match policy.delay(status) {
                None => self.halt(),
                Some(secs) => {
                    if shutdown {
                        self.halt()
                    } else {
                        self.hold(status, secs)
                    }
                },
            },
            (LoopPhase::Waiting { status, remaining }, LoopEvent::SecondPassed) => {
                if shutdown {
                    self.halt()
                } else {
                    self.hold(status, remaining - 1)
                }
            },
            _ => LoopAction::Ignore,
        }
    }

    fn halt(&mut self) -> (action: LoopAction)
        ensures
            (final(self)@, action) == old(self)@.stop(),
            final(self)@.well_formed(),
    {
        *self = Supervisor { policy: self.policy, phase: LoopPhase::Stopped };
        LoopAction::Stop
    }

    fn launch(&mut self) -> (action: LoopAction)
        ensures
            (final(self)@, action) == old(self)@.start(),
            final(self)@.well_formed(),
    {
        *self = Supervisor { policy: self.policy, phase: LoopPhase::Running };
        LoopAction::StartRun
    }

    fn hold(&mut self, status: Status, remaining: u64) -> (action: LoopAction)
        ensures
            (final(self)@, action) == old(self)@.wait(status, remaining),
            final(self)@.well_formed(),
    {
        if remaining == 0 {
            self.launch()
        } else {
            *self = Supervisor {
                policy: self.policy,
                phase: LoopPhase::Waiting { status, remaining },
            };
            LoopAction::Countdown { status, remaining }
        }
    }
}

/// Every step keeps the loop well formed.
pub proof fn lemma_step_keeps_well_formed(state: LoopState, event: LoopEvent, shutdown: bool)
    requires
        state.well_formed(),
    ensures
        state.step(event, shutdown).0.well_formed(),
{
}

/// Whatever is reported to the loop, the loop stays well formed.
pub proof fn lemma_after_keeps_well_formed(state: LoopState, inputs: Seq<LoopInput>)
    requires
        state.well_formed(),
    ensures
        state.after(inputs).well_formed(),
    decreases inputs.len(),
{
    if inputs.len() > 0 {
        lemma_after_keeps_well_formed(state, inputs.drop_last());
    }
}

/// Runs never overlap. Whatever is reported to the loop, and in whatever
/// order, at most one run is started and not yet finished; and one is so
/// exactly while the loop is in its `Running` phase. A new run is therefore
/// asked for only when the one before has been reported finished.
pub proof fn lemma_runs_never_overlap(policy: BackoffPolicy, inputs: Seq<LoopInput>)
    ensures
        0 <= LoopState::initial(policy).live_runs(inputs) <= 1,
        LoopState::initial(policy).live_runs(inputs) == 1 <==> LoopState::initial(policy).after(
            inputs,
        ).phase is Running,
    decreases inputs.len(),
{
    if inputs.len() > 0 {
        lemma_runs_never_overlap(policy, inputs.drop_last());
    }
}

/// A run that ends cleanly, or without a status, ends the loop; so does any
/// event that the loop takes in while shutdown is requested. After a run that
/// crashed, found the lock held or idled, and with no shutdown requested, the
/// loop goes on.
pub proof fn lemma_policy_table(state: LoopState, status: Status, shutdown: bool)
    requires
        state.phase is Running,
    ensures
        !status.restarts() || shutdown ==> state.step(LoopEvent::RunFinished(status), shutdown)
            == state.stop(),
        status.restarts() && !shutdown ==> state.step(LoopEvent::RunFinished(status), shutdown)
            == state.wait(status, state.policy.delay_of(status)->0),
{
}

/// While shutdown is requested the loop starts no run and begins no wait.
pub proof fn lemma_shutdown_starts_nothing(state: LoopState, event: LoopEvent)
    ensures
        state.step(event, true).1 is Stop || state.step(event, true).1 is Ignore,
        state.step(event, true).1 is Stop ==> state.step(event, true).0.phase is Stopped,
{
}

/// A stopped loop stays stopped.
pub proof fn lemma_stopped_is_final(state: LoopState, inputs: Seq<LoopInput>)
    requires
        state.phase is Stopped,
    ensures
        state.after(inputs) == state,
    decreases inputs.len(),
{
    if inputs.len() > 0 {
        lemma_stopped_is_final(state, inputs.drop_last());
    }
}

/// A countdown of `remaining` seconds asks for one announcement per second
/// and then starts the next run: while fewer seconds than that have passed the
/// loop still waits, with the seconds that are left, and the second that uses
/// them up starts the run.
pub proof fn lemma_countdown_runs_out(state: LoopState, status: Status, remaining: u64, passed: nat)
    requires
        state.phase == (LoopPhase::Waiting { status, remaining }),
        remaining >= 1,
        passed <= remaining,
    ensures
        passed < remaining ==> state.after(seconds(passed)).phase == (LoopPhase::Waiting {
            status,
            remaining: (remaining - passed) as u64,
        }),
        passed == remaining ==> state.after(seconds(passed)).phase is Running,
        state.after(seconds(passed)).policy == state.policy,
    decreases passed,
{
    if passed > 0 {
        assert(seconds(passed).drop_last() == seconds((passed - 1) as nat));
        lemma_countdown_runs_out(state, status, remaining, (passed - 1) as nat);
    }
}

} // verus!
