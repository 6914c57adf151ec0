//! How one attempt of a job can end, and how a job ends for good.

use vstd::prelude::*;

verus! {

/// What went wrong in an attempt, as far as the supervisor needs to tell
/// failures apart.
#[derive(Clone, Copy, Debug, PartialEq, Eq, Structural)]
pub enum ErrorCondition {
    /// The credentials the job was given were refused.
    InvalidCredentials,
    /// The configuration cannot be used as it stands.
    Configuration,
    /// A collaborator could not be reached.
    Connection,
    /// A collaborator did not answer in time.
    Timeout,
    /// The attempt ended abnormally without saying why.
    Aborted,
    /// Anything else.
    Other,
}

/// The classification of one finished attempt.
#[derive(Clone, Copy, Debug, PartialEq, Eq, Structural)]
pub enum AttemptOutcome {
    /// The work is done; the job is not started again.
    Success,
    /// The attempt failed, and another attempt may succeed.
    Transient(ErrorCondition),
    /// The attempt failed, and no further attempt can succeed.
    Fatal(ErrorCondition),
}

/// How an attempt left the supervisor's hands: by returning its own
/// classification, or by ending abnormally.
#[derive(Clone, Copy, Debug, PartialEq, Eq, Structural)]
pub enum AttemptExit {
    /// The attempt returned and classified itself.
    Returned(AttemptOutcome),
    /// The attempt ended abnormally under the given condition.
    Aborted(ErrorCondition),
}

/// The terminal outcome of a job.
#[derive(Clone, Copy, Debug, PartialEq, Eq, Structural)]
pub enum JobOutcome {
    /// An attempt succeeded.
    Completed,
    /// An attempt failed fatally.
    Failed(ErrorCondition),
    /// A `Stop` command ended the job.
    Cancelled,
}

/// The conditions that a job treats as fatal when an attempt ends abnormally.
pub struct FatalRule {
    conditions: Vec<ErrorCondition>,
}

impl View for FatalRule {
    type V = Set<ErrorCondition>;

    closed spec fn view(&self) -> Set<ErrorCondition> {
        self.conditions@.to_set()
    }
}

/// The classification of an exit under a set of fatal conditions. A returned
/// outcome stands as it is. An abnormal end is a transient failure, unless its
/// condition is one of the fatal ones.
pub open spec fn classify_exit(exit: AttemptExit, fatal: Set<ErrorCondition>) -> AttemptOutcome {
    match exit {
        AttemptExit::Returned(outcome) => outcome,
        AttemptExit::Aborted(condition) => if fatal.contains(condition) {
            AttemptOutcome::Fatal(condition)
        } else {
            AttemptOutcome::Transient(condition)
        },
    }
}

impl FatalRule {
    /// The rule under which no abnormal end is fatal.
    pub fn none() -> (rule: FatalRule)
        ensures
            rule@ == Set::<ErrorCondition>::empty(),
    {
        let rule = FatalRule { conditions: Vec::new() };
        assert(rule.conditions@.to_set() =~= Set::<ErrorCondition>::empty());
        rule
    }

    /// The rule under which exactly the listed conditions are fatal.
    pub fn new(conditions: Vec<ErrorCondition>) -> (rule: FatalRule)
        ensures
            rule@ == conditions@.to_set(),
    {
        FatalRule { conditions }
    }

    /// Whether an abnormal end under `condition` is fatal.
    pub fn is_fatal(&self, condition: ErrorCondition) -> (fatal: bool)
        ensures
            fatal == self@.contains(condition),
    {
        let mut i: usize = 0;
        while i < self.conditions.len()
            invariant
                i <= self.conditions.len(),
                forall|j: int| 0 <= j < i ==> self.conditions@[j] != condition,
            decreases self.conditions.len() - i,
        {
            if self.conditions[i] == condition {
                return true;
            }
            i += 1;
        }
        false
    }

    /// Classifies an exit: see [`classify_exit`].
    pub fn classify(&self, exit: AttemptExit) -> (outcome: AttemptOutcome)
        ensures
            outcome == classify_exit(exit, self@),
    {
        match exit {
            AttemptExit::Returned(outcome) => outcome,
            AttemptExit::Aborted(condition) => if self.is_fatal(condition) {
                AttemptOutcome::Fatal(condition)
            } else {
                AttemptOutcome::Transient(condition)
            },
        }
    }
}

} // verus!
