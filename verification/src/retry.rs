use vstd::prelude::*;

use crate::error::{headed, NgetError};
use crate::text::{decimal, decimal_text};

verus! {

/// How often a task is tried, how long it waits in between, and how much it
/// says about it.
#[derive(Debug, Clone, Copy)]
pub struct RetryPolicy {
    /// The number of attempts after which a failing task gives up. A task
    /// is always tried once, also where this is 0.
    pub max_retries: u32,
    /// The seconds to wait between a failed attempt and the next one.
    pub delay_seconds: u64,
    /// Whether each attempt and each failure is announced.
    pub verbose: bool,
    /// Whether everything but the final outcome is kept silent.
    pub quiet: bool,
}

/// Where a task stands between its attempts.
#[derive(Debug, Clone, Copy, PartialEq, Eq, Structural)]
pub enum RetryPhase {
    /// Nothing has been tried yet.
    Pending,
    /// An attempt is under way.
    Attempting,
    /// An attempt has failed and the task waits before the next one.
    ScheduledRetry,
    /// An attempt succeeded.
    Succeeded,
    /// The last attempt allowed has failed.
    Exhausted,
}

/// What the outside world reports to a task.
#[derive(Debug)]
pub enum RetryEvent {
    /// The task may begin.
    Start,
    /// The attempt under way succeeded.
    AttemptSucceeded,
    /// The attempt under way failed with this error.
    AttemptFailed(NgetError),
    /// The wait before the next attempt is over.
    DelayElapsed,
}

/// What a task asks of the outside world next.
#[derive(Debug)]
pub enum RetryAction {
    /// Run attempt `number`; announce it first where `announce` is set.
    Attempt { number: u32, announce: bool },
    /// Attempt `failed_attempt` failed with `error`: announce that where
    /// `announce` is set, then wait `seconds`.
    Wait { seconds: u64, failed_attempt: u32, announce: bool, error: NgetError },
    /// The task succeeded; nothing is left to do.
    Done,
    /// The task failed for good after `attempts` attempts, the last of them
    /// with `error`: report it, and show it on the task's progress indicator
    /// where `show` is set.
    GiveUp { attempts: u32, show: bool, error: NgetError },
    /// The event does not belong to the task's phase; nothing changed.
    Refuse,
}

/// One task's passage through its attempts.
#[derive(Debug, Clone, Copy)]
pub struct Retry {
    pub phase: RetryPhase,
    /// The number of attempts begun so far.
    pub attempt: u32,
    pub policy: RetryPolicy,
}

impl Retry {
    /// The most attempts a task with this policy makes.
    pub open spec fn attempt_limit(policy: RetryPolicy) -> int {
        if policy.max_retries >= 1 {
            policy.max_retries as int
        } else {
            1
        }
    }

    /// What holds of every task that began with `pending`: the count of
    /// attempts never passes the limit, and a retry is only scheduled while
    /// an attempt is left.
    pub open spec fn wf(self) -> bool {
        &&& self.attempt <= Self::attempt_limit(self.policy)
        &&& (self.phase == RetryPhase::Pending <==> self.attempt == 0)
        &&& (self.phase == RetryPhase::ScheduledRetry ==> self.attempt < self.policy.max_retries)
        &&& (self.phase == RetryPhase::Exhausted ==> self.attempt >= self.policy.max_retries)
    }

    /// The task before its first attempt.
    pub open spec fn initial(policy: RetryPolicy) -> Retry {
        Retry { phase: RetryPhase::Pending, attempt: 0, policy }
    }

    /// Whether the task has ended, well or badly.
    pub open spec fn spec_is_terminal(self) -> bool {
        self.phase == RetryPhase::Succeeded || self.phase == RetryPhase::Exhausted
    }

    /// The task after `event`, and what it asks for next. An event that does
    /// not belong to the phase changes nothing and is refused.
    pub open spec fn next(self, event: RetryEvent) -> (Retry, RetryAction) {
        match (self.phase, event) {
            (RetryPhase::Pending, RetryEvent::Start) => (
                Retry { phase: RetryPhase::Attempting, attempt: 1, ..self },
                RetryAction::Attempt { number: 1, announce: self.policy.verbose },
            ),
            (RetryPhase::Attempting, RetryEvent::AttemptSucceeded) => (
                Retry { phase: RetryPhase::Succeeded, ..self },
                RetryAction::Done,
            ),
            (RetryPhase::Attempting, RetryEvent::AttemptFailed(error)) => {
                if self.attempt < self.policy.max_retries {
                    (
                        Retry { phase: RetryPhase::ScheduledRetry, ..self },
                        RetryAction::Wait {
                            seconds: self.policy.delay_seconds,
                            failed_attempt: self.attempt,
                            announce: self.policy.verbose,
                            error,
                        },
                    )
                } else {
                    (
                        Retry { phase: RetryPhase::Exhausted, ..self },
                        RetryAction::GiveUp {
                            attempts: self.attempt,
                            show: !self.policy.quiet,
                            error,
                        },
                    )
                }
            },
            (RetryPhase::ScheduledRetry, RetryEvent::DelayElapsed) => (
                Retry {
                    phase: RetryPhase::Attempting,
                    attempt: (self.attempt + 1) as u32,
                    ..self
                },
                RetryAction::Attempt {
                    number: (self.attempt + 1) as u32,
                    announce: self.policy.verbose,
                },
            ),
            _ => (self, RetryAction::Refuse),
        }
    }

    /// A task that has not been tried yet.
    pub fn pending(policy: RetryPolicy) -> (task: Retry)
        ensures
            task == Retry::initial(policy),
            task.wf(),
    {
        Retry { phase: RetryPhase::Pending, attempt: 0, policy }
    }

    /// Whether the task is one that `pending` and `step` can have made.
    pub fn is_well_formed(&self) -> (well: bool)
        ensures
            well == self.wf(),
    {
        let limit: u32 = if self.policy.max_retries >= 1 {
            self.policy.max_retries
        } else {
            1
        };
        let fits = self.attempt <= limit;
        match self.phase {
            RetryPhase::Pending => fits && self.attempt == 0,
            RetryPhase::ScheduledRetry => fits && self.attempt != 0 && self.attempt
                < self.policy.max_retries,
            RetryPhase::Exhausted => fits && self.attempt != 0 && self.attempt
                >= self.policy.max_retries,
            _ => fits && self.attempt != 0,
        }
    }

    /// Whether the task has ended, well or badly.
    pub fn is_terminal(&self) -> (ended: bool)
        ensures
            ended == self.spec_is_terminal(),
    {
        match self.phase {
            RetryPhase::Succeeded => true,
            RetryPhase::Exhausted => true,
            _ => false,
        }
    }

    /// Takes one event: moves the task on and says what to do next. A
    /// failure is answered with a wait while the attempts begun are fewer
    /// than `max_retries`, and with giving up, the error handed back, once
    /// they are not.
    pub fn step(&mut self, event: RetryEvent) -> (action: RetryAction)
        requires
            old(self).wf(),
        ensures
            (*final(self), action) == old(self).next(event),
            final(self).wf(),
            final(self).policy == old(self).policy,
    {
        match (self.phase, event) {
            (RetryPhase::Pending, RetryEvent::Start) => {
                self.phase = RetryPhase::Attempting;
                self.attempt = 1;
                RetryAction::Attempt { number: 1, announce: self.policy.verbose }
            },
            (RetryPhase::Attempting, RetryEvent::AttemptSucceeded) => {
                self.phase = RetryPhase::Succeeded;
                RetryAction::Done
            },
            (RetryPhase::Attempting, RetryEvent::AttemptFailed(error)) => {
                if self.attempt < self.policy.max_retries {
                    self.phase = RetryPhase::ScheduledRetry;
                    RetryAction::Wait {
                        seconds: self.policy.delay_seconds,
                        failed_attempt: self.attempt,
                        announce: self.policy.verbose,
                        error,
                    }
                } else {
                    self.phase = RetryPhase::Exhausted;
                    RetryAction::GiveUp {
                        attempts: self.attempt,
                        show: !self.policy.quiet,
                        error,
                    }
                }
            },
            (RetryPhase::ScheduledRetry, RetryEvent::DelayElapsed) => {
                self.phase = RetryPhase::Attempting;
                self.attempt = self.attempt + 1;
                RetryAction::Attempt { number: self.attempt, announce: self.policy.verbose }
            },
            _ => RetryAction::Refuse,
        }
    }

    /// The task after one more failed attempt, and after the wait that
    /// follows it where one is scheduled.
    pub open spec fn after_failure(self, error: NgetError) -> Retry {
        let failed = self.next(RetryEvent::AttemptFailed(error)).0;
        if failed.phase == RetryPhase::ScheduledRetry {
            failed.next(RetryEvent::DelayElapsed).0
        } else {
            failed
        }
    }

    /// The task after a run of failed attempts, each followed by its wait.
    pub open spec fn after_failures(self, errors: Seq<NgetError>) -> Retry
        decreases errors.len(),
    {
        if errors.len() == 0 {
            self
        } else {
            self.after_failures(errors.drop_last()).after_failure(errors.last())
        }
    }

    /// While fewer failures have come than `max_retries`, the task is in
    /// its next attempt, and the attempts begun are one more than the
    /// failures.
    pub proof fn lemma_failures_before_the_limit(policy: RetryPolicy, errors: Seq<NgetError>)
        requires
            errors.len() < policy.max_retries,
        ensures
            ({
                let task = Retry::initial(policy).next(RetryEvent::Start).0.after_failures(
                    errors,
                );
                &&& task.phase == RetryPhase::Attempting
                &&& task.attempt == errors.len() + 1
                &&& task.policy == policy
            }),
        decreases errors.len(),
    {
        if errors.len() > 0 {
            Self::lemma_failures_before_the_limit(policy, errors.drop_last());
        }
    }

    /// The bound on retries: against a remote that fails every time, a task
    /// with `max_retries` of at least 1 makes exactly `max_retries`
    /// attempts. Before the last of these failures it is still trying;
    /// with it the task is exhausted, hands back the error of that last
    /// attempt, and no further failure or wait changes it.
    pub proof fn lemma_retry_bound(policy: RetryPolicy, errors: Seq<NgetError>)
        requires
            policy.max_retries >= 1,
            errors.len() == policy.max_retries,
        ensures
            ({
                let started = Retry::initial(policy).next(RetryEvent::Start).0;
                let before = started.after_failures(errors.drop_last());
                let last = before.next(RetryEvent::AttemptFailed(errors.last()));
                let ended = started.after_failures(errors);
                &&& before.phase == RetryPhase::Attempting
                &&& before.attempt == policy.max_retries
                &&& ended == last.0
                &&& ended.phase == RetryPhase::Exhausted
                &&& ended.attempt == policy.max_retries
                &&& last.1 == RetryAction::GiveUp {
                    attempts: policy.max_retries,
                    show: !policy.quiet,
                    error: errors.last(),
                }
                &&& forall|e: NgetError| #[trigger] ended.after_failure(e) == ended
                &&& ended.next(RetryEvent::DelayElapsed).0 == ended
                &&& ended.next(RetryEvent::Start).0 == ended
            }),
    {
        Self::lemma_failures_before_the_limit(policy, errors.drop_last());
    }

    /// A task whose `max_retries` is 0 is still tried once: its first
    /// failure exhausts it.
    pub proof fn lemma_no_retries_means_one_attempt(policy: RetryPolicy, error: NgetError)
        requires
            policy.max_retries == 0,
        ensures
            ({
                let started = Retry::initial(policy).next(RetryEvent::Start);
                let ended = started.0.next(RetryEvent::AttemptFailed(error));
                &&& started.1 == RetryAction::Attempt { number: 1, announce: policy.verbose }
                &&& ended.0.phase == RetryPhase::Exhausted
                &&& ended.0.attempt == 1
            }),
    {
    }
}

/// The announcement of an attempt.
pub fn attempt_notice(number: u32, url: &str) -> (notice: String)
    ensures
        notice@ == "Attempt "@ + decimal(number as nat) + " for URL: "@ + url@,
{
    let count = decimal_text(number as u64);
    let mut notice = headed("Attempt ", count.as_str());
    notice.append(" for URL: ");
    notice.append(url);
    notice
}

/// The announcement of a failed attempt that will be tried again.
pub fn retry_notice(number: u32, url: &str, error: &NgetError) -> (notice: String)
    ensures
        notice@ == "Attempt "@ + decimal(number as nat) + " failed for URL "@ + url@ + ": "@
            + error.description() + ". Retrying..."@,
{
    let count = decimal_text(number as u64);
    let reason = error.describe();
    let mut notice = headed("Attempt ", count.as_str());
    notice.append(" failed for URL ");
    notice.append(url);
    notice.append(": ");
    notice.append(reason.as_str());
    notice.append(". Retrying...");
    notice
}

/// The report of a task that failed for good.
pub fn abandon_message(url: &str, error: &NgetError) -> (message: String)
    ensures
        message@ == "Failed to download "@ + url@ + ": "@ + error.description(),
{
    let reason = error.describe();
    let mut message = headed("Failed to download ", url);
    message.append(": ");
    message.append(reason.as_str());
    message
}

} // verus!
