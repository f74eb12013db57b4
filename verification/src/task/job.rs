//! Jobs and their lifecycle: waiting, active, then completed or failed, with
//! retries while attempts remain.

use vstd::prelude::*;
use crate::clock::now_millis;
use crate::text::to_owned_string;
use crate::util::{uuid, is_hyphenated_v4};
use crate::attr::opt_view;

verus! {

/// The errors a job can end with.
#[derive(Debug)]
pub enum JobError {
    ExecutionFailed(String),
    Timeout,
    Cancelled,
    Serialization(String),
    Redis(String),
    Other(String),
}

/// The message of each job error.
pub open spec fn job_error_text(e: JobError) -> Seq<char> {
    match e {
        JobError::ExecutionFailed(m) => "任务执行失败: "@ + m@,
        JobError::Timeout => "任务超时"@,
        JobError::Cancelled => "任务被取消"@,
        JobError::Serialization(m) => "序列化错误: "@ + m@,
        JobError::Redis(m) => "Redis 错误: "@ + m@,
        JobError::Other(m) => "其他错误: "@ + m@,
    }
}

impl JobError {
    /// The error's message.
    pub fn message(&self) -> (r: String)
        ensures
            r@ == job_error_text(*self),
    {
        let (head, tail) = match self {
            JobError::ExecutionFailed(m) => ("任务执行失败: ", Some(m)),
            JobError::Timeout => ("任务超时", None),
            JobError::Cancelled => ("任务被取消", None),
            JobError::Serialization(m) => ("序列化错误: ", Some(m)),
            JobError::Redis(m) => ("Redis 错误: ", Some(m)),
            JobError::Other(m) => ("其他错误: ", Some(m)),
        };
        let mut r = to_owned_string(head);
        match tail {
            Some(m) => r.append(m.as_str()),
            None => {},
        }
        r
    }
}

/// The states of a job.
#[derive(Debug, Clone, Copy, PartialEq, Eq, Structural)]
pub enum JobStatus {
    Waiting,
    Active,
    Completed,
    Failed,
    Delayed,
    Paused,
}

/// The lower-case name under which a status is stored.
pub open spec fn job_status_name(s: JobStatus) -> Seq<char> {
    match s {
        JobStatus::Waiting => "waiting"@,
        JobStatus::Active => "active"@,
        JobStatus::Completed => "completed"@,
        JobStatus::Failed => "failed"@,
        JobStatus::Delayed => "delayed"@,
        JobStatus::Paused => "paused"@,
    }
}

impl JobStatus {
    /// The lower-case name under which the status is stored.
    pub fn as_str(&self) -> (r: &'static str)
        ensures
            r@ == job_status_name(*self),
    {
        match self {
            JobStatus::Waiting => "waiting",
            JobStatus::Active => "active",
            JobStatus::Completed => "completed",
            JobStatus::Failed => "failed",
            JobStatus::Delayed => "delayed",
            JobStatus::Paused => "paused",
        }
    }
}

/// Options of a job.
#[derive(Debug)]
pub struct JobOptions {
    /// Delay before the job may run, in milliseconds.
    pub delay: Option<u64>,
    /// How many attempts the job may take.
    pub retries: u32,
    /// Time limit of one attempt, in seconds.
    pub timeout: u64,
    /// Priority: a larger number runs earlier.
    pub priority: i32,
    /// Cron expression of a scheduled job.
    pub cron: Option<String>,
    /// The job's id; one is generated where none is given.
    pub job_id: Option<String>,
}

impl JobOptions {
    /// A field-by-field copy.
    pub fn copy(&self) -> (r: JobOptions)
        ensures
            r == *self,
    {
        JobOptions {
            delay: self.delay,
            retries: self.retries,
            timeout: self.timeout,
            priority: self.priority,
            cron: match &self.cron {
                Some(c) => Some(c.clone()),
                None => None,
            },
            job_id: match &self.job_id {
                Some(c) => Some(c.clone()),
                None => None,
            },
        }
    }
}

impl Default for JobOptions {
    /// No delay, 3 attempts, 60 seconds, priority 0, no cron, no id.
    fn default() -> (r: JobOptions)
        ensures
            r.delay is None,
            r.retries == 3,
            r.timeout == 60,
            r.priority == 0,
            r.cron is None,
            r.job_id is None,
    {
        JobOptions { delay: None, retries: 3, timeout: 60, priority: 0, cron: None, job_id: None }
    }
}

/// A job. Its data and result are JSON text; times are milliseconds since the
/// Unix epoch.
#[derive(Debug)]
pub struct Job {
    pub id: String,
    pub queue: String,
    pub name: String,
    pub data: String,
    pub status: JobStatus,
    pub options: JobOptions,
    pub created_at: i64,
    pub started_at: Option<i64>,
    pub finished_at: Option<i64>,
    pub attempts: u32,
    pub error: Option<String>,
    pub result: Option<String>,
}

/// Whether `j` is `old` with only the status, start time and attempts changed
/// as starting an attempt changes them.
pub open spec fn started(old: Job, j: Job) -> bool {
    &&& j.status == JobStatus::Active
    &&& j.started_at is Some
    &&& j.attempts == old.attempts + 1
    &&& j.finished_at == old.finished_at
    &&& j.error == old.error
    &&& j.result == old.result
    &&& same_identity(old, j)
}

/// Whether two jobs are the same job with the same options.
pub open spec fn same_identity(a: Job, b: Job) -> bool {
    &&& a.id == b.id
    &&& a.queue == b.queue
    &&& a.name == b.name
    &&& a.data == b.data
    &&& a.options == b.options
    &&& a.created_at == b.created_at
}

impl Job {
    /// A new waiting job: its id is `options.job_id`, else a fresh UUID.
    pub fn new(queue: &str, name: &str, data: String, options: JobOptions) -> (r: Job)
        ensures
            match options.job_id {
                Some(id) => r.id@ == id@,
                None => is_hyphenated_v4(r.id@),
            },
            r.queue@ == queue@,
            r.name@ == name@,
            r.data == data,
            r.status == JobStatus::Waiting,
            r.options == options,
            r.started_at is None,
            r.finished_at is None,
            r.attempts == 0,
            r.error is None,
            r.result is None,
    {
        let id = match &options.job_id {
            Some(id) => id.clone(),
            None => uuid(),
        };
        Job {
            id,
            queue: to_owned_string(queue),
            name: to_owned_string(name),
            data,
            status: JobStatus::Waiting,
            options,
            created_at: now_millis(),
            started_at: None,
            finished_at: None,
            attempts: 0,
            error: None,
            result: None,
        }
    }

    /// Starts an attempt: the job becomes active, its start time is now and its
    /// attempts grow by one.
    pub fn mark_active(&mut self)
        requires
            old(self).attempts < u32::MAX,
        ensures
            started(*old(self), *final(self)),
    {
        self.status = JobStatus::Active;
        self.started_at = Some(now_millis());
        self.attempts = self.attempts + 1;
    }

    /// Completes the job with `result`.
    pub fn mark_completed(&mut self, result: Option<String>)
        ensures
            final(self).status == JobStatus::Completed,
            final(self).finished_at is Some,
            final(self).result == result,
            final(self).started_at == old(self).started_at,
            final(self).attempts == old(self).attempts,
            final(self).error == old(self).error,
            same_identity(*old(self), *final(self)),
    {
        self.status = JobStatus::Completed;
        self.finished_at = Some(now_millis());
        self.result = result;
    }

    /// Fails the job with the message `error`.
    pub fn mark_failed(&mut self, error: &str)
        ensures
            final(self).status == JobStatus::Failed,
            final(self).finished_at is Some,
            opt_view(final(self).error) == Some(error@),
            final(self).started_at == old(self).started_at,
            final(self).attempts == old(self).attempts,
            final(self).result == old(self).result,
            same_identity(*old(self), *final(self)),
    {
        self.status = JobStatus::Failed;
        self.finished_at = Some(now_millis());
        self.error = Some(to_owned_string(error));
    }

    /// Whether another attempt is allowed: fewer attempts than `retries`.
    pub fn can_retry(&self) -> (r: bool)
        ensures
            r == (self.attempts < self.options.retries),
    {
        self.attempts < self.options.retries
    }

    /// How long the last attempt took, in milliseconds, once it has finished.
    pub fn duration_ms(&self) -> (r: Option<i64>)
        requires
            self.started_at is Some && self.finished_at is Some ==> i64::MIN
                <= self.finished_at->0 - self.started_at->0 <= i64::MAX,
        ensures
            match (self.started_at, self.finished_at) {
                (Some(s), Some(e)) => r == Some((e - s) as i64),
                _ => r is None,
            },
    {
        match (self.started_at, self.finished_at) {
            (Some(s), Some(e)) => Some(e - s),
            _ => None,
        }
    }
}

} // verus!
