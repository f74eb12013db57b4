//! The decisions of a job queue kept in a key-value store: key names, where a
//! new job is placed, what a failure leads to, and which set each status is
//! counted in. The store itself is reached by the application.

use vstd::prelude::*;
use crate::task::job::{Job, JobStatus, same_identity};
use crate::text::to_owned_string;
use crate::attr::opt_view;

verus! {

/// The key of `suffix` in the queue `name` under `prefix`: `prefix:name:suffix`.
pub open spec fn queue_key_spec(prefix: Seq<char>, name: Seq<char>, suffix: Seq<char>) -> Seq<char> {
    prefix + ":"@ + name + ":"@ + suffix
}

/// Builds the key of `suffix` in the queue `name`.
pub fn queue_key(prefix: &str, name: &str, suffix: &str) -> (r: String)
    ensures
        r@ == queue_key_spec(prefix@, name@, suffix@),
{
    let mut r = to_owned_string(prefix);
    r.append(":");
    r.append(name);
    r.append(":");
    r.append(suffix);
    r
}

/// The key under which the job `id` is stored: the queue's key of `job:id`.
pub fn job_key(prefix: &str, name: &str, id: &str) -> (r: String)
    ensures
        r@ == queue_key_spec(prefix@, name@, "job:"@ + id@),
{
    let mut suffix = to_owned_string("job:");
    suffix.append(id);
    queue_key(prefix, name, suffix.as_str())
}

/// The key pattern that matches every key of the queue: `prefix:name:*`.
pub fn queue_pattern(prefix: &str, name: &str) -> (r: String)
    ensures
        r@ == queue_key_spec(prefix@, name@, "*"@),
{
    queue_key(prefix, name, "*")
}

/// The sorted sets of a queue.
#[derive(Debug, Clone, Copy, PartialEq, Eq, Structural)]
pub enum QueueSet {
    Waiting,
    Delayed,
    Active,
    Completed,
    Failed,
}

/// The key suffix of each set.
pub open spec fn queue_set_name(s: QueueSet) -> Seq<char> {
    match s {
        QueueSet::Waiting => "waiting"@,
        QueueSet::Delayed => "delayed"@,
        QueueSet::Active => "active"@,
        QueueSet::Completed => "completed"@,
        QueueSet::Failed => "failed"@,
    }
}

impl QueueSet {
    /// The key suffix of the set.
    pub fn suffix(&self) -> (r: &'static str)
        ensures
            r@ == queue_set_name(*self),
    {
        match self {
            QueueSet::Waiting => "waiting",
            QueueSet::Delayed => "delayed",
            QueueSet::Active => "active",
            QueueSet::Completed => "completed",
            QueueSet::Failed => "failed",
        }
    }
}

/// Where a job goes and with which score.
pub struct Placement {
    pub set: QueueSet,
    pub score: i64,
}

/// Where a new job is placed at time `now`: a delayed job into the delayed set,
/// due at `now + delay`; any other into the waiting set, where a higher
/// priority gives a lower score and so runs earlier.
pub open spec fn placement_spec(delay: Option<u64>, priority: i32, now: i64) -> (QueueSet, int) {
    match delay {
        Some(d) => (QueueSet::Delayed, now + d),
        None => (QueueSet::Waiting, -priority),
    }
}

/// Places a new job.
pub fn place_new_job(job: &Job, now: i64) -> (r: Placement)
    requires
        job.options.delay matches Some(d) ==> d <= i64::MAX && now + d <= i64::MAX,
        job.options.priority > i32::MIN,
    ensures
        (r.set, r.score as int) == placement_spec(job.options.delay, job.options.priority, now),
{
    match job.options.delay {
        Some(d) => Placement { set: QueueSet::Delayed, score: now + d as i64 },
        None => Placement { set: QueueSet::Waiting, score: -(job.options.priority as i64) },
    }
}

/// Whether a delayed job with score `score` is due at `now`.
pub fn is_due(score: i64, now: i64) -> (r: bool)
    ensures
        r == (0 <= score <= now),
{
    0 <= score && score <= now
}

/// What a failure leads to.
#[derive(Debug, Clone, Copy, PartialEq, Eq, Structural)]
pub enum FailOutcome {
    /// Back to the waiting set for another attempt.
    Retry,
    /// Into the failed set for good.
    Failed,
}

/// The outcome of a failure of `j`: another attempt while attempts remain.
pub open spec fn fail_outcome(j: Job) -> FailOutcome {
    if j.attempts < j.options.retries {
        FailOutcome::Retry
    } else {
        FailOutcome::Failed
    }
}

impl Job {
    /// Records a failure with the message `error`. While attempts remain the job
    /// goes back to waiting; else it stays failed.
    pub fn fail(&mut self, error: &str) -> (r: FailOutcome)
        ensures
            r == fail_outcome(*old(self)),
            final(self).status == (if r == FailOutcome::Retry {
                JobStatus::Waiting
            } else {
                JobStatus::Failed
            }),
            opt_view(final(self).error) == Some(error@),
            final(self).finished_at is Some,
            final(self).attempts == old(self).attempts,
            final(self).started_at == old(self).started_at,
            final(self).result == old(self).result,
            same_identity(*old(self), *final(self)),
    {
        self.mark_failed(error);
        if self.can_retry() {
            self.status = JobStatus::Waiting;
            FailOutcome::Retry
        } else {
            FailOutcome::Failed
        }
    }
}

/// The set a failed job moves to, and its score there at time `now`.
pub fn fail_placement(outcome: FailOutcome, now: i64) -> (r: Placement)
    ensures
        outcome == FailOutcome::Retry ==> r.set == QueueSet::Waiting && r.score == 0,
        outcome == FailOutcome::Failed ==> r.set == QueueSet::Failed && r.score == now,
{
    match outcome {
        FailOutcome::Retry => Placement { set: QueueSet::Waiting, score: 0 },
        FailOutcome::Failed => Placement { set: QueueSet::Failed, score: now },
    }
}

/// The set in which jobs of a status are counted; paused jobs are in none.
pub open spec fn count_set(s: JobStatus) -> Option<QueueSet> {
    match s {
        JobStatus::Waiting => Some(QueueSet::Waiting),
        JobStatus::Active => Some(QueueSet::Active),
        JobStatus::Completed => Some(QueueSet::Completed),
        JobStatus::Failed => Some(QueueSet::Failed),
        JobStatus::Delayed => Some(QueueSet::Delayed),
        JobStatus::Paused => None,
    }
}

/// The set in which jobs of `status` are counted.
pub fn count_set_of(status: JobStatus) -> (r: Option<QueueSet>)
    ensures
        r == count_set(status),
{
    match status {
        JobStatus::Waiting => Some(QueueSet::Waiting),
        JobStatus::Active => Some(QueueSet::Active),
        JobStatus::Completed => Some(QueueSet::Completed),
        JobStatus::Failed => Some(QueueSet::Failed),
        JobStatus::Delayed => Some(QueueSet::Delayed),
        JobStatus::Paused => None,
    }
}

/// Whether a set is a plain set (counted by cardinality of a set) rather than
/// a sorted set: only the active set is.
pub fn is_plain_set(s: QueueSet) -> (r: bool)
    ensures
        r == (s == QueueSet::Active),
{
    match s {
        QueueSet::Active => true,
        _ => false,
    }
}

/// Law: a job that has been started from `j0` and then fails is retried exactly
/// when it had taken fewer than `retries - 1` attempts before starting, so a
/// job is retried while its attempts stay below `retries`.
pub proof fn law_retry_while_attempts_remain(j0: Job, j: Job)
    requires
        crate::task::job::started(j0, j),
    ensures
        (fail_outcome(j) == FailOutcome::Retry) <==> j0.attempts + 1 < j0.options.retries,
{
}

} // verus!
