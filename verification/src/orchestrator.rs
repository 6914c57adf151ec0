//! The orchestrator: it waits for the first job to end or for a request to
//! shut down, fires the shutdown signal, lets the remaining jobs wind down,
//! and says with what report the process exits. It never restarts a job:
//! that is the supervisor's part.

use crate::outcome::{ErrorCondition, JobOutcome};
use crate::shutdown::{ShutdownCause, ShutdownSignal};
use vstd::prelude::*;

verus! {

/// The time, in milliseconds, that jobs are given to wind down after the
/// shutdown signal has fired, where nothing else is configured. Jobs that
/// have not ended by then are abandoned.
pub const DEFAULT_GRACE_MS: u64 = 5000;

/// What the orchestrator is told.
#[derive(Clone, Copy, Debug, PartialEq, Eq, Structural)]
pub enum OrchestratorEvent {
    /// The job `job` has ended with `outcome`.
    JobEnded { job: usize, outcome: JobOutcome },
    /// An operator asked for a shutdown.
    OperatorShutdown,
    /// The operating system asked the process to terminate.
    Termination,
    /// The time given to the jobs to wind down has passed.
    GraceExpired,
}

/// What the process reports when it exits.
#[derive(Clone, Copy, Debug, PartialEq, Eq, Structural)]
pub enum ExitReport {
    /// No job failed before the shutdown began.
    Clean,
    /// The job `job` failed fatally under `cause`, and the shutdown followed
    /// from that.
    JobFailed { job: usize, cause: ErrorCondition },
}

/// Where the orchestrator stands.
#[derive(Clone, Copy, Debug, PartialEq, Eq, Structural)]
pub enum Stage {
    /// All jobs run, and nothing has asked for a shutdown.
    Waiting,
    /// The shutdown has begun; the report is settled, and jobs wind down.
    Draining(ExitReport),
    /// The process is to exit with the report.
    Exited(ExitReport),
}

/// What the orchestrator asks for.
#[derive(Debug, PartialEq, Eq)]
pub enum OrchestratorAction {
    /// Nothing: keep waiting.
    Continue,
    /// The shutdown signal has fired. Send `Stop` to the jobs listed, and
    /// report `GraceExpired` after `grace_ms` milliseconds.
    Drain { stop: Vec<usize>, grace_ms: u64 },
    /// Exit with the report.
    Exit(ExitReport),
}

/// An [`OrchestratorAction`] as the contracts see it.
pub enum ActionView {
    /// Nothing.
    Continue,
    /// Stop the jobs listed and wait for them, `grace_ms` at most.
    Drain { stop: Seq<usize>, grace_ms: u64 },
    /// Exit with the report.
    Exit(ExitReport),
}

impl View for OrchestratorAction {
    type V = ActionView;

    open spec fn view(&self) -> ActionView {
        match self {
            OrchestratorAction::Continue => ActionView::Continue,
            OrchestratorAction::Drain { stop, grace_ms } => ActionView::Drain {
                stop: stop@,
                grace_ms: *grace_ms,
            },
            OrchestratorAction::Exit(report) => ActionView::Exit(*report),
        }
    }
}

/// The jobs among the first `upto` that have not ended, in ascending order.
pub open spec fn running_upto(outcomes: Seq<Option<JobOutcome>>, upto: nat) -> Seq<usize>
    decreases upto,
{
    if upto == 0 {
        Seq::empty()
    } else {
        let earlier = running_upto(outcomes, (upto - 1) as nat);
        if outcomes[upto - 1] is None {
            earlier.push((upto - 1) as usize)
        } else {
            earlier
        }
    }
}

/// The report that follows from the first job to end.
pub open spec fn report_for(job: usize, outcome: JobOutcome) -> ExitReport {
    match outcome {
        JobOutcome::Failed(cause) => ExitReport::JobFailed { job, cause },
        _ => ExitReport::Clean,
    }
}

/// The orchestrator as its contracts see it.
pub struct OrchestratorState {
    /// For each job, its outcome once it has ended.
    pub outcomes: Seq<Option<JobOutcome>>,
    /// Where the orchestrator stands.
    pub stage: Stage,
    /// The time that jobs are given to wind down.
    pub grace_ms: u64,
}

impl OrchestratorState {
    /// The orchestrator of `jobs` jobs, none of which has ended.
    pub open spec fn initial(jobs: nat, grace_ms: u64) -> OrchestratorState {
        OrchestratorState {
            outcomes: Seq::new(jobs, |i: int| None::<JobOutcome>),
            stage: Stage::Waiting,
            grace_ms,
        }
    }

    /// Whether `job` is one of the jobs and has not ended.
    pub open spec fn is_running(self, job: usize) -> bool {
        job < self.outcomes.len() && self.outcomes[job as int] is None
    }

    /// The jobs that have not ended, in ascending order.
    pub open spec fn running(self) -> Seq<usize> {
        running_upto(self.outcomes, self.outcomes.len())
    }

    /// The state with the outcome of `job` recorded.
    pub open spec fn record(self, job: usize, outcome: JobOutcome) -> OrchestratorState {
        OrchestratorState { outcomes: self.outcomes.update(job as int, Some(outcome)), ..self }
    }

    /// The start of the shutdown under `report`: straight to the exit if
    /// no job is left, else the remaining jobs are stopped and waited for.
    pub open spec fn begin_exit(self, report: ExitReport) -> (OrchestratorState, ActionView) {
        if self.running().len() == 0 {
            (OrchestratorState { stage: Stage::Exited(report), ..self }, ActionView::Exit(report))
        } else {
            (
                OrchestratorState { stage: Stage::Draining(report), ..self },
                ActionView::Drain { stop: self.running(), grace_ms: self.grace_ms },
            )
        }
    }

    /// The cause with which the shutdown signal is fired when `event` is
    /// handled: the first end of a job or request to shut down has one, and
    /// nothing else.
    pub open spec fn fires(self, event: OrchestratorEvent) -> Option<ShutdownCause> {
        if self.stage is Waiting {
            match event {
                OrchestratorEvent::JobEnded { job, outcome } => if self.is_running(job) {
                    Some(ShutdownCause::Job(job))
                } else {
                    None
                },
                OrchestratorEvent::OperatorShutdown => Some(ShutdownCause::Operator),
                OrchestratorEvent::Termination => Some(ShutdownCause::Termination),
                OrchestratorEvent::GraceExpired => None,
            }
        } else {
            None
        }
    }

    /// The transition function. While waiting, the first job to end, or a
    /// request to shut down, begins the shutdown and settles the report: the
    /// job and its cause if it failed, else a clean exit. While draining,
    /// the ends of further jobs are recorded, and the process exits once all
    /// have ended or the time to wind down has passed. After that, and for
    /// every event that speaks of no running job, nothing happens.
    pub open spec fn step(self, event: OrchestratorEvent) -> (OrchestratorState, ActionView) {
        match self.stage {
            Stage::Exited(_) => (self, ActionView::Continue),
            Stage::Waiting => match event {
                OrchestratorEvent::JobEnded { job, outcome } => if self.is_running(job) {
                    self.record(job, outcome).begin_exit(report_for(job, outcome))
                } else {
                    (self, ActionView::Continue)
                },
                OrchestratorEvent::OperatorShutdown => self.begin_exit(ExitReport::Clean),
                OrchestratorEvent::Termination => self.begin_exit(ExitReport::Clean),
                OrchestratorEvent::GraceExpired => (self, ActionView::Continue),
            },
            Stage::Draining(report) => match event {
                OrchestratorEvent::JobEnded { job, outcome } => if self.is_running(job) {
                    if self.record(job, outcome).running().len() == 0 {
                        (
                            OrchestratorState {
                                stage: Stage::Exited(report),
                                ..self.record(job, outcome)
                            },
                            ActionView::Exit(report),
                        )
                    } else {
                        (self.record(job, outcome), ActionView::Continue)
                    }
                } else {
                    (self, ActionView::Continue)
                },
                OrchestratorEvent::GraceExpired => (
                    OrchestratorState { stage: Stage::Exited(report), ..self },
                    ActionView::Exit(report),
                ),
                _ => (self, ActionView::Continue),
            },
        }
    }

    /// The report settled on, once the shutdown has begun.
    pub open spec fn report(self) -> Option<ExitReport> {
        match self.stage {
            Stage::Waiting => None,
            Stage::Draining(report) => Some(report),
            Stage::Exited(report) => Some(report),
        }
    }

    /// A job that fails fatally while all is well begins the shutdown, is
    /// named in the report with its cause, and is the cause with which the
    /// shutdown signal fires. The jobs asked to stop are those still running.
    pub proof fn lemma_fatal_job_is_reported(self, job: usize, cause: ErrorCondition)
        requires
            self.stage is Waiting,
            self.is_running(job),
        ensures
            ({
                let event = OrchestratorEvent::JobEnded { job, outcome: JobOutcome::Failed(cause) };
                let report = ExitReport::JobFailed { job, cause };
                let (next, action) = self.step(event);
                &&& self.fires(event) == Some(ShutdownCause::Job(job))
                &&& next.report() == Some(report)
                &&& action == ActionView::Exit(report) || action == (ActionView::Drain {
                    stop: self.record(job, JobOutcome::Failed(cause)).running(),
                    grace_ms: self.grace_ms,
                })
            }),
    {
    }

    /// There is one report: once the shutdown has begun, no later event
    /// changes it, none fires the signal with another cause, and an exit
    /// carries it.
    pub proof fn lemma_report_is_settled(self, event: OrchestratorEvent)
        requires
            self.report() is Some,
        ensures
            self.step(event).0.report() == self.report(),
            self.fires(event) is None,
            self.step(event).1 matches ActionView::Exit(report) ==> Some(report) == self.report(),
            !(self.step(event).1 is Drain),
    {
    }

    /// The process exits once: after the exit nothing more is asked for.
    pub proof fn lemma_exit_is_final(self, event: OrchestratorEvent)
        requires
            self.stage is Exited,
        ensures
            self.step(event) == (self, ActionView::Continue),
    {
    }
}

/// The orchestrator of a fixed set of jobs, known by their indices.
pub struct Orchestrator {
    names: Vec<String>,
    outcomes: Vec<Option<JobOutcome>>,
    stage: Stage,
    grace_ms: u64,
}

impl View for Orchestrator {
    type V = OrchestratorState;

    closed spec fn view(&self) -> OrchestratorState {
        OrchestratorState { outcomes: self.outcomes@, stage: self.stage, grace_ms: self.grace_ms }
    }
}

impl Orchestrator {
    #[verifier::type_invariant]
    spec fn inv(self) -> bool {
        self.names@.len() == self.outcomes@.len()
    }

    /// The names of the jobs, by index.
    pub closed spec fn job_names(&self) -> Seq<String> {
        self.names@
    }

    /// The orchestrator of the jobs with the given names; the job `i` is the
    /// one named `names[i]`. After the shutdown signal has fired, jobs get
    /// `grace_ms` milliseconds to wind down.
    pub fn new(names: Vec<String>, grace_ms: u64) -> (orchestrator: Orchestrator)
        ensures
            orchestrator@ == OrchestratorState::initial(names@.len(), grace_ms),
            orchestrator.job_names() == names@,
    {
        let mut outcomes: Vec<Option<JobOutcome>> = Vec::new();
        let mut i: usize = 0;
        while i < names.len()
            invariant
                i <= names@.len(),
                outcomes@.len() == i,
                forall|j: int| 0 <= j < i ==> outcomes@[j] == None::<JobOutcome>,
            decreases names@.len() - i,
        {
            outcomes.push(None);
            i += 1;
        }
        assert(outcomes@ =~= Seq::new(names@.len(), |i: int| None::<JobOutcome>));
        Orchestrator { names, outcomes, stage: Stage::Waiting, grace_ms }
    }

    /// The jobs that have not ended, in ascending order.
    pub fn running(&self) -> (jobs: Vec<usize>)
        ensures
            jobs@ == self@.running(),
    {
        let mut jobs: Vec<usize> = Vec::new();
        let mut i: usize = 0;
        while i < self.outcomes.len()
            invariant
                i <= self.outcomes@.len(),
                jobs@ == running_upto(self.outcomes@, i as nat),
            decreases self.outcomes@.len() - i,
        {
            if self.outcomes[i].is_none() {
                jobs.push(i);
            }
            i += 1;
        }
        jobs
    }

    fn begin_exit(&mut self, report: ExitReport) -> (action: OrchestratorAction)
        ensures
            (final(self)@, action@) == old(self)@.begin_exit(report),
            final(self).job_names() == old(self).job_names(),
    {
        proof {
            use_type_invariant(&*self);
        }
        let stop = self.running();
        if stop.len() == 0 {
            self.stage = Stage::Exited(report);
            OrchestratorAction::Exit(report)
        } else {
            self.stage = Stage::Draining(report);
            OrchestratorAction::Drain { stop, grace_ms: self.grace_ms }
        }
    }

    fn record(&mut self, job: usize, outcome: JobOutcome)
        requires
            old(self)@.is_running(job),
        ensures
            final(self)@ == old(self)@.record(job, outcome),
            final(self).job_names() == old(self).job_names(),
    {
        proof {
            use_type_invariant(&*self);
        }
        self.outcomes[job] = Some(outcome);
    }

    /// Whether `job` is one of the jobs and has not ended.
    pub fn is_running(&self, job: usize) -> (running: bool)
        ensures
            running == self@.is_running(job),
    {
        job < self.outcomes.len() && self.outcomes[job].is_none()
    }

    /// The number of jobs.
    pub fn job_count(&self) -> (count: usize)
        ensures
            count == self@.outcomes.len(),
            count == self.job_names().len(),
    {
        proof {
            use_type_invariant(self);
        }
        self.outcomes.len()
    }

    /// The name of `job`, if it is one of the jobs.
    pub fn job_name(&self, job: usize) -> (name: Option<&String>)
        ensures
            name is Some <==> job < self.job_names().len(),
            name matches Some(n) ==> *n == self.job_names()[job as int],
    {
        if job < self.names.len() {
            Some(&self.names[job])
        } else {
            None
        }
    }

    /// The outcome of `job`, once it has ended.
    pub fn outcome(&self, job: usize) -> (outcome: Option<JobOutcome>)
        ensures
            outcome == (if job < self@.outcomes.len() {
                self@.outcomes[job as int]
            } else {
                None
            }),
    {
        if job < self.outcomes.len() {
            self.outcomes[job]
        } else {
            None
        }
    }

    /// Where the orchestrator stands.
    pub fn stage(&self) -> (stage: Stage)
        ensures
            stage == self@.stage,
    {
        self.stage
    }

    /// The time, in milliseconds, that jobs are given to wind down.
    pub fn grace_ms(&self) -> (grace_ms: u64)
        ensures
            grace_ms == self@.grace_ms,
    {
        self.grace_ms
    }

    /// The report settled on, once the shutdown has begun.
    pub fn report(&self) -> (report: Option<ExitReport>)
        ensures
            report == self@.report(),
    {
        match self.stage {
            Stage::Waiting => None,
            Stage::Draining(report) => Some(report),
            Stage::Exited(report) => Some(report),
        }
    }

    /// Handles one event: the orchestrator moves to the next state of
    /// [`OrchestratorState::step`] and returns the action that goes with it.
    /// Where the event begins the shutdown, the signal is fired with the
    /// cause that [`OrchestratorState::fires`] gives; else it is left alone.
    pub fn handle(&mut self, event: OrchestratorEvent, shutdown: &mut ShutdownSignal) -> (action:
        OrchestratorAction)
        ensures
            (final(self)@, action@) == old(self)@.step(event),
            final(self).job_names() == old(self).job_names(),
            final(shutdown).cause() == (match old(self)@.fires(event) {
                Some(cause) => old(shutdown).cause_after(cause),
                None => old(shutdown).cause(),
            }),
    {
        proof {
            use_type_invariant(&*self);
        }
        match self.stage {
            Stage::Exited(_) => OrchestratorAction::Continue,
            Stage::Waiting => match event {
                OrchestratorEvent::JobEnded { job, outcome } => {
                    if self.is_running(job) {
                        shutdown.fire(ShutdownCause::Job(job));
                        self.record(job, outcome);
                        let report = match outcome {
                            JobOutcome::Failed(cause) => ExitReport::JobFailed { job, cause },
                            _ => ExitReport::Clean,
                        };
                        self.begin_exit(report)
                    } else {
                        OrchestratorAction::Continue
                    }
                },
                OrchestratorEvent::OperatorShutdown => {
                    shutdown.fire(ShutdownCause::Operator);
                    self.begin_exit(ExitReport::Clean)
                },
                OrchestratorEvent::Termination => {
                    shutdown.fire(ShutdownCause::Termination);
                    self.begin_exit(ExitReport::Clean)
                },
                OrchestratorEvent::GraceExpired => OrchestratorAction::Continue,
            },
            Stage::Draining(report) => match event {
                OrchestratorEvent::JobEnded { job, outcome } => {
                    if self.is_running(job) {
                        self.record(job, outcome);
                        let left = self.running();
                        if left.len() == 0 {
                            self.stage = Stage::Exited(report);
                            OrchestratorAction::Exit(report)
                        } else {
                            OrchestratorAction::Continue
                        }
                    } else {
                        OrchestratorAction::Continue
                    }
                },
                OrchestratorEvent::GraceExpired => {
                    self.stage = Stage::Exited(report);
                    OrchestratorAction::Exit(report)
                },
                _ => OrchestratorAction::Continue,
            },
        }
    }
}

} // verus!
