//! The supervisor of one restartable job: a state machine that is told what
//! happened and answers with what to do next.

use crate::backoff::BackoffPolicy;
use crate::outcome::{
    classify_exit, AttemptExit, AttemptOutcome, ErrorCondition, FatalRule, JobOutcome,
};
use vstd::prelude::*;

verus! {

/// A command from the operator to one supervised job.
#[derive(Clone, Copy, Debug, PartialEq, Eq, Structural)]
pub enum ControlCommand {
    /// Hold every further start until `Resume`.
    Pause,
    /// Lift a `Pause`, and make the start that it held.
    Resume,
    /// End the job: cancel the attempt in flight and start no other.
    Stop,
}

/// Where a supervised job stands in its life.
#[derive(Clone, Copy, Debug, PartialEq, Eq, Structural)]
pub enum Phase {
    /// No attempt has been started yet.
    Starting,
    /// An attempt is in flight.
    Running,
    /// The last attempt failed transiently and the next one is owed.
    Restarting,
    /// The job has ended with the given outcome; nothing follows.
    Stopped(JobOutcome),
}

/// What the supervisor is told.
#[derive(Clone, Copy, Debug, PartialEq, Eq, Structural)]
pub enum SupervisorEvent {
    /// The job is to make its first attempt.
    Launch,
    /// The attempt in flight ended after running for `ran_for_ms` milliseconds.
    AttemptEnded { exit: AttemptExit, ran_for_ms: u64 },
    /// The delay before the restart has passed.
    BackoffElapsed,
    /// The operator sent a command.
    Command(ControlCommand),
}

/// What the supervisor asks for in return.
#[derive(Clone, Copy, Debug, PartialEq, Eq, Structural)]
pub enum SupervisorAction {
    /// Nothing.
    Idle,
    /// Run the factory once; this is attempt number `attempt`.
    Start { attempt: u64 },
    /// Record restart number `restart`: attempt number `attempt` failed
    /// under `cause`. Wait `delay_ms` milliseconds and then report
    /// `BackoffElapsed`.
    Backoff { delay_ms: u64, restart: u64, attempt: u64, cause: ErrorCondition },
    /// Report the terminal outcome after `attempts` attempts; cancel the
    /// attempt in flight first where `cancel_attempt` is set.
    Finish { outcome: JobOutcome, attempts: u64, cancel_attempt: bool },
}

/// A counter one step on; it stays at the largest value once there.
pub open spec fn bump(count: u64) -> u64 {
    if count < u64::MAX {
        (count + 1) as u64
    } else {
        count
    }
}

/// The state of a supervisor as the transition function sees it.
pub struct SupervisorState {
    /// The delays between restarts.
    pub policy: BackoffPolicy,
    /// The conditions under which an abnormal end is fatal.
    pub fatal: Set<ErrorCondition>,
    /// Where the job stands.
    pub phase: Phase,
    /// Whether starts are held.
    pub paused: bool,
    /// Whether a start is owed and held by a pause.
    pub due: bool,
    /// The attempts started so far.
    pub attempts: u64,
    /// The restarts recorded so far.
    pub restarts: u64,
    /// The delay that the next restart of the current series waits.
    pub pending_delay: u64,
}

impl SupervisorState {
    /// The state of a job that has not been launched.
    pub open spec fn initial(policy: BackoffPolicy, fatal: Set<ErrorCondition>) -> SupervisorState {
        SupervisorState {
            policy,
            fatal,
            phase: Phase::Starting,
            paused: false,
            due: false,
            attempts: 0,
            restarts: 0,
            pending_delay: policy.min(),
        }
    }

    /// The states that a supervisor can be in.
    pub open spec fn wf(self) -> bool {
        &&& self.policy.wf()
        &&& self.policy.min() <= self.pending_delay <= self.policy.max()
        &&& self.due ==> self.phase is Starting || self.phase is Restarting
    }

    /// The state once an attempt is started, and the request to start it.
    pub open spec fn start(self) -> (SupervisorState, SupervisorAction) {
        (
            SupervisorState {
                phase: Phase::Running,
                due: false,
                attempts: bump(self.attempts),
                ..self
            },
            SupervisorAction::Start { attempt: bump(self.attempts) },
        )
    }

    /// The state once the job has ended with `outcome`, and the report of it.
    pub open spec fn finish(self, outcome: JobOutcome, cancel_attempt: bool) -> (
        SupervisorState,
        SupervisorAction,
    ) {
        (
            SupervisorState { phase: Phase::Stopped(outcome), due: false, ..self },
            SupervisorAction::Finish { outcome, attempts: self.attempts, cancel_attempt },
        )
    }

    /// A start that is owed: made at once, or held while the job is paused.
    pub open spec fn start_or_hold(self) -> (SupervisorState, SupervisorAction) {
        if self.paused {
            (SupervisorState { due: true, ..self }, SupervisorAction::Idle)
        } else {
            self.start()
        }
    }

    /// The end of the attempt in flight. Success and a fatal failure end the
    /// job. A transient failure records a restart and asks for its delay:
    /// the pending delay of the series, or the minimum when the attempt ran
    /// long enough to begin a new series. The series then grows.
    pub open spec fn attempt_ended(self, exit: AttemptExit, ran_for_ms: u64) -> (
        SupervisorState,
        SupervisorAction,
    ) {
        match classify_exit(exit, self.fatal) {
            AttemptOutcome::Success => self.finish(JobOutcome::Completed, false),
            AttemptOutcome::Fatal(cause) => self.finish(JobOutcome::Failed(cause), false),
            AttemptOutcome::Transient(cause) => {
                let delay = self.policy.delay_for(self.pending_delay, ran_for_ms);
                (
                    SupervisorState {
                        phase: Phase::Restarting,
                        restarts: bump(self.restarts),
                        pending_delay: self.policy.grow(delay),
                        ..self
                    },
                    SupervisorAction::Backoff {
                        delay_ms: delay,
                        restart: bump(self.restarts),
                        attempt: self.attempts,
                        cause,
                    },
                )
            },
        }
    }

    /// The transition function. A stopped job ignores every event. `Stop`
    /// ends any other job at once. `Pause` and `Resume` set and lift the hold
    /// on starts. `Launch` is heeded before the first attempt, the end of an
    /// attempt while one is in flight, and the end of a delay while a restart
    /// is owed; out of place each of them is ignored.
    pub open spec fn step(self, event: SupervisorEvent) -> (SupervisorState, SupervisorAction) {
        if self.phase is Stopped {
            (self, SupervisorAction::Idle)
        } else {
            match event {
                SupervisorEvent::Command(ControlCommand::Stop) => self.finish(
                    JobOutcome::Cancelled,
                    self.phase is Running,
                ),
                SupervisorEvent::Command(ControlCommand::Pause) => (
                    SupervisorState { paused: true, ..self },
                    SupervisorAction::Idle,
                ),
                SupervisorEvent::Command(ControlCommand::Resume) => if self.due {
                    SupervisorState { paused: false, ..self }.start()
                } else {
                    (SupervisorState { paused: false, ..self }, SupervisorAction::Idle)
                },
                SupervisorEvent::Launch => if self.phase is Starting && !self.due {
                    self.start_or_hold()
                } else {
                    (self, SupervisorAction::Idle)
                },
                SupervisorEvent::BackoffElapsed => if self.phase is Restarting && !self.due {
                    self.start_or_hold()
                } else {
                    (self, SupervisorAction::Idle)
                },
                SupervisorEvent::AttemptEnded { exit, ran_for_ms } => if self.phase is Running {
                    self.attempt_ended(exit, ran_for_ms)
                } else {
                    (self, SupervisorAction::Idle)
                },
            }
        }
    }

    /// The state after a sequence of events, each handled in turn.
    pub open spec fn run(self, events: Seq<SupervisorEvent>) -> SupervisorState
        decreases events.len(),
    {
        if events.len() == 0 {
            self
        } else {
            self.step(events[0]).0.run(events.drop_first())
        }
    }

    /// The actions asked for while a sequence of events is handled, in order.
    pub open spec fn actions(self, events: Seq<SupervisorEvent>) -> Seq<SupervisorAction>
        decreases events.len(),
    {
        if events.len() == 0 {
            Seq::empty()
        } else {
            seq![self.step(events[0]).1] + self.step(events[0]).0.actions(events.drop_first())
        }
    }
}

/// The delays that the `Backoff` actions among `actions` ask for, in order.
pub open spec fn backoff_delays(actions: Seq<SupervisorAction>) -> Seq<u64>
    decreases actions.len(),
{
    if actions.len() == 0 {
        Seq::empty()
    } else {
        match actions[0] {
            SupervisorAction::Backoff { delay_ms, .. } => seq![delay_ms] + backoff_delays(
                actions.drop_first(),
            ),
            _ => backoff_delays(actions.drop_first()),
        }
    }
}

/// The delays never shrink from one to the next and all lie between `low`
/// and `high`.
pub open spec fn rising_within(delays: Seq<u64>, low: u64, high: u64) -> bool {
    forall|i: int, j: int|
        0 <= i <= j < delays.len() ==> low <= #[trigger] delays[i] && delays[i]
            <= #[trigger] delays[j] && delays[j] <= high
}

/// No attempt among `events` ran long enough to begin a new series of delays.
pub open spec fn no_sustained_run(policy: BackoffPolicy, events: Seq<SupervisorEvent>) -> bool {
    forall|i: int|
        0 <= i < events.len() ==> (#[trigger] events[i] matches SupervisorEvent::AttemptEnded {
            ran_for_ms,
            ..
        } ==> ran_for_ms < policy.reset_after())
}

impl SupervisorState {
    /// Every step leads from a state that a supervisor can be in to another,
    /// under the same policy and the same rule.
    pub proof fn lemma_step_preserves_wf(self, event: SupervisorEvent)
        requires
            self.wf(),
        ensures
            self.step(event).0.wf(),
            self.step(event).0.policy == self.policy,
            self.step(event).0.fatal == self.fatal,
    {
        self.policy.lemma_grow_bounds(self.pending_delay);
        self.policy.lemma_grow_bounds(self.policy.min());
    }

    /// Attempts of one job never overlap: an attempt is only ever started
    /// while none is in flight.
    pub proof fn lemma_attempts_are_sequential(self, event: SupervisorEvent)
        requires
            self.wf(),
        ensures
            self.step(event).1 is Start ==> !(self.phase is Running) && self.step(
                event,
            ).0.phase is Running,
    {
    }

    /// A stopped job stays as it is whatever it is told, and asks for nothing.
    pub proof fn lemma_stopped_is_final(self, events: Seq<SupervisorEvent>)
        requires
            self.phase is Stopped,
        ensures
            self.run(events) == self,
            self.actions(events) == Seq::new(events.len(), |i: int| SupervisorAction::Idle),
        decreases events.len(),
    {
        if events.len() > 0 {
            self.lemma_stopped_is_final(events.drop_first());
        }
        assert(self.actions(events) =~= Seq::new(events.len(), |i: int| SupervisorAction::Idle));
    }

    /// A job whose attempt fails fatally is not started again and reports
    /// its failure exactly once: the end of the attempt is answered with the
    /// one `Finish`, and every later event with `Idle`.
    pub proof fn lemma_fatal_failure_is_final(
        self,
        exit: AttemptExit,
        ran_for_ms: u64,
        later: Seq<SupervisorEvent>,
    )
        requires
            self.phase is Running,
            classify_exit(exit, self.fatal) is Fatal,
        ensures
            ({
                let cause = classify_exit(exit, self.fatal)->Fatal_0;
                let events = seq![SupervisorEvent::AttemptEnded { exit, ran_for_ms }] + later;
                &&& self.actions(events) == seq![
                    SupervisorAction::Finish {
                        outcome: JobOutcome::Failed(cause),
                        attempts: self.attempts,
                        cancel_attempt: false,
                    },
                ] + Seq::new(later.len(), |i: int| SupervisorAction::Idle)
                &&& self.run(events).phase == Phase::Stopped(JobOutcome::Failed(cause))
                &&& self.run(events).attempts == self.attempts
                &&& self.run(events).restarts == self.restarts
            }),
    {
        let events = seq![SupervisorEvent::AttemptEnded { exit, ran_for_ms }] + later;
        assert(events.drop_first() =~= later);
        self.step(events[0]).0.lemma_stopped_is_final(later);
    }

    /// A job whose attempt fails transiently is restarted. The failure is
    /// answered with a `Backoff` whose delay lies between the policy's bounds
    /// and is the minimum after a sustained run. Once the delay has passed the
    /// next attempt is started, at once or, if the job is paused, on `Resume`.
    pub proof fn lemma_transient_failure_is_restarted(self, exit: AttemptExit, ran_for_ms: u64)
        requires
            self.wf(),
            self.phase is Running,
            classify_exit(exit, self.fatal) is Transient,
        ensures
            ({
                let cause = classify_exit(exit, self.fatal)->Transient_0;
                let delay = self.policy.delay_for(self.pending_delay, ran_for_ms);
                let failed = self.step(SupervisorEvent::AttemptEnded { exit, ran_for_ms });
                let waited = failed.0.step(SupervisorEvent::BackoffElapsed);
                let resumed = waited.0.step(SupervisorEvent::Command(ControlCommand::Resume));
                let next = SupervisorAction::Start { attempt: bump(self.attempts) };
                &&& failed.1 == SupervisorAction::Backoff {
                    delay_ms: delay,
                    restart: bump(self.restarts),
                    attempt: self.attempts,
                    cause,
                }
                &&& self.policy.min() <= delay <= self.policy.max()
                &&& ran_for_ms >= self.policy.reset_after() ==> delay == self.policy.min()
                &&& failed.0.phase is Restarting
                &&& !self.paused ==> waited.1 == next && waited.0.phase is Running
                &&& self.paused ==> waited.1 is Idle && resumed.1 == next
                    && resumed.0.phase is Running
            }),
    {
    }

    /// As long as no attempt runs long enough to begin a new series, the
    /// delays before the restarts never shrink and never exceed the policy's
    /// maximum, whatever else happens in between.
    pub proof fn lemma_delays_never_shrink(self, events: Seq<SupervisorEvent>)
        requires
            self.wf(),
            no_sustained_run(self.policy, events),
        ensures
            rising_within(
                backoff_delays(self.actions(events)),
                self.pending_delay,
                self.policy.max(),
            ),
        decreases events.len(),
    {
        if events.len() > 0 {
            let next = self.step(events[0]).0;
            let rest = events.drop_first();
            self.lemma_step_preserves_wf(events[0]);
            assert(no_sustained_run(next.policy, rest)) by {
                assert forall|i: int| 0 <= i < rest.len() implies (
                #[trigger] rest[i] matches SupervisorEvent::AttemptEnded { ran_for_ms, .. }
                    ==> ran_for_ms < next.policy.reset_after()) by {
                    assert(rest[i] == events[i + 1]);
                }
            }
            next.lemma_delays_never_shrink(rest);
            self.policy.lemma_grow_bounds(self.pending_delay);
            let actions = self.actions(events);
            assert(actions.drop_first() =~= next.actions(rest));
            let tail = backoff_delays(next.actions(rest));
            let delays = backoff_delays(actions);
            assert(self.pending_delay <= next.pending_delay);
            if self.step(events[0]).1 is Backoff {
                assert(delays =~= seq![self.pending_delay] + tail);
            } else {
                assert(delays =~= tail);
            }
        }
    }
}

/// The supervisor of one job. It owns the restart policy and the rule that
/// tells fatal conditions from transient ones, and it is driven by
/// [`Supervisor::step`].
pub struct Supervisor {
    name: String,
    policy: BackoffPolicy,
    rule: FatalRule,
    phase: Phase,
    paused: bool,
    due: bool,
    attempts: u64,
    restarts: u64,
    pending_delay: u64,
}

impl View for Supervisor {
    type V = SupervisorState;

    closed spec fn view(&self) -> SupervisorState {
        SupervisorState {
            policy: self.policy,
            fatal: self.rule@,
            phase: self.phase,
            paused: self.paused,
            due: self.due,
            attempts: self.attempts,
            restarts: self.restarts,
            pending_delay: self.pending_delay,
        }
    }
}

impl Supervisor {
    #[verifier::type_invariant]
    spec fn inv(self) -> bool {
        self@.wf()
    }

    /// The name of the job, as given at construction.
    pub closed spec fn job_name(&self) -> Seq<char> {
        self.name@
    }

    /// A supervisor for the job `name` that has not been launched.
    pub fn new(name: String, policy: BackoffPolicy, rule: FatalRule) -> (supervisor: Supervisor)
        ensures
            supervisor@ == SupervisorState::initial(policy, rule@),
            supervisor@.wf(),
            supervisor.job_name() == name@,
    {
        let min = policy.min_delay_ms();
        Supervisor {
            name,
            policy,
            rule,
            phase: Phase::Starting,
            paused: false,
            due: false,
            attempts: 0,
            restarts: 0,
            pending_delay: min,
        }
    }

    /// The name of the job.
    pub fn name(&self) -> (name: &str)
        ensures
            name@ == self.job_name(),
    {
        self.name.as_str()
    }

    /// Where the job stands.
    pub fn phase(&self) -> (phase: Phase)
        ensures
            phase == self@.phase,
    {
        self.phase
    }

    /// The outcome of the job, once it has stopped.
    pub fn outcome(&self) -> (outcome: Option<JobOutcome>)
        ensures
            outcome == (match self@.phase {
                Phase::Stopped(o) => Some(o),
                _ => None,
            }),
    {
        match self.phase {
            Phase::Stopped(outcome) => Some(outcome),
            _ => None,
        }
    }

    /// Whether starts are held by a `Pause`.
    pub fn is_paused(&self) -> (paused: bool)
        ensures
            paused == self@.paused,
    {
        self.paused
    }

    /// The attempts started so far.
    pub fn attempts(&self) -> (attempts: u64)
        ensures
            attempts == self@.attempts,
    {
        self.attempts
    }

    /// The restarts recorded so far.
    pub fn restarts(&self) -> (restarts: u64)
        ensures
            restarts == self@.restarts,
    {
        self.restarts
    }

    /// The delay policy of the job.
    pub fn policy(&self) -> (policy: BackoffPolicy)
        ensures
            policy == self@.policy,
    {
        self.policy
    }

    /// Handles one event: the supervisor moves to the next state of
    /// [`SupervisorState::step`] and returns the action that goes with it.
    pub fn step(&mut self, event: SupervisorEvent) -> (action: SupervisorAction)
        ensures
            old(self)@.wf(),
            final(self)@.wf(),
            (final(self)@, action) == old(self)@.step(event),
            final(self).job_name() == old(self).job_name(),
    {
        proof {
            use_type_invariant(&*self);
        }
        let action = if let Phase::Stopped(_) = self.phase {
            SupervisorAction::Idle
        } else {
            match event {
                SupervisorEvent::Command(ControlCommand::Stop) => {
                    let in_flight = self.phase == Phase::Running;
                    self.finish(JobOutcome::Cancelled, in_flight)
                },
                SupervisorEvent::Command(ControlCommand::Pause) => {
                    self.paused = true;
                    SupervisorAction::Idle
                },
                SupervisorEvent::Command(ControlCommand::Resume) => {
                    self.paused = false;
                    if self.due {
                        self.start()
                    } else {
                        SupervisorAction::Idle
                    }
                },
                SupervisorEvent::Launch => {
                    if self.phase == Phase::Starting && !self.due {
                        self.start_or_hold()
                    } else {
                        SupervisorAction::Idle
                    }
                },
                SupervisorEvent::BackoffElapsed => {
                    if self.phase == Phase::Restarting && !self.due {
                        self.start_or_hold()
                    } else {
                        SupervisorAction::Idle
                    }
                },
                SupervisorEvent::AttemptEnded { exit, ran_for_ms } => {
                    if self.phase == Phase::Running {
                        self.attempt_ended(exit, ran_for_ms)
                    } else {
                        SupervisorAction::Idle
                    }
                },
            }
        };
        proof {
            use_type_invariant(&*self);
        }
        action
    }

    fn start(&mut self) -> (action: SupervisorAction)
        requires
            !(old(self)@.phase is Stopped),
        ensures
            (final(self)@, action) == old(self)@.start(),
            final(self).job_name() == old(self).job_name(),
    {
        proof {
            use_type_invariant(&*self);
        }
        let attempt: u64 = if self.attempts < u64::MAX {
            self.attempts + 1
        } else {
            self.attempts
        };
        self.due = false;
        self.phase = Phase::Running;
        self.attempts = attempt;
        SupervisorAction::Start { attempt }
    }

    fn start_or_hold(&mut self) -> (action: SupervisorAction)
        requires
            old(self)@.phase is Starting || old(self)@.phase is Restarting,
        ensures
            (final(self)@, action) == old(self)@.start_or_hold(),
            final(self).job_name() == old(self).job_name(),
    {
        proof {
            use_type_invariant(&*self);
        }
        if self.paused {
            self.due = true;
            SupervisorAction::Idle
        } else {
            self.start()
        }
    }

    fn finish(&mut self, outcome: JobOutcome, cancel_attempt: bool) -> (action: SupervisorAction)
        ensures
            (final(self)@, action) == old(self)@.finish(outcome, cancel_attempt),
            final(self).job_name() == old(self).job_name(),
    {
        proof {
            use_type_invariant(&*self);
        }
        self.due = false;
        self.phase = Phase::Stopped(outcome);
        SupervisorAction::Finish { outcome, attempts: self.attempts, cancel_attempt }
    }

    fn attempt_ended(&mut self, exit: AttemptExit, ran_for_ms: u64) -> (action: SupervisorAction)
        requires
            old(self)@.phase is Running,
        ensures
            (final(self)@, action) == old(self)@.attempt_ended(exit, ran_for_ms),
            final(self).job_name() == old(self).job_name(),
    {
        proof {
            use_type_invariant(&*self);
        }
        match self.rule.classify(exit) {
            AttemptOutcome::Success => self.finish(JobOutcome::Completed, false),
            AttemptOutcome::Fatal(cause) => self.finish(JobOutcome::Failed(cause), false),
            AttemptOutcome::Transient(cause) => {
                let delay_ms = self.policy.restart_delay(self.pending_delay, ran_for_ms);
                let restart: u64 = if self.restarts < u64::MAX {
                    self.restarts + 1
                } else {
                    self.restarts
                };
                let grown = self.policy.next_delay(delay_ms);
                self.pending_delay = grown;
                self.restarts = restart;
                self.phase = Phase::Restarting;
                SupervisorAction::Backoff { delay_ms, restart, attempt: self.attempts, cause }
            },
        }
    }
}

} // verus!
