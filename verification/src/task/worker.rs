//! The decisions of a worker's polling loop. The loop itself (sleeping,
//! fetching, running handlers) is driven by the application, which performs
//! each action and reports what happened.

use vstd::prelude::*;
use crate::text::to_owned_string;

verus! {

/// Worker settings.
#[derive(Debug)]
pub struct WorkerConfig {
    /// How many jobs run at once.
    pub concurrency: usize,
    /// Pause between polls of an empty or paused queue, in milliseconds.
    pub poll_interval: u64,
    /// Whether the worker starts by itself.
    pub auto_start: bool,
}

impl Default for WorkerConfig {
    /// Four jobs at once, a poll every second, started by itself.
    fn default() -> (r: WorkerConfig)
        ensures
            r.concurrency == 4,
            r.poll_interval == 1000,
            r.auto_start,
    {
        WorkerConfig { concurrency: 4, poll_interval: 1000, auto_start: true }
    }
}

/// What the loop does next.
#[derive(Debug, Clone, Copy, PartialEq, Eq, Structural)]
pub enum WorkerAction {
    /// Leave the loop.
    Stop,
    /// Sleep this many milliseconds, then poll again.
    Sleep(u64),
    /// Take a free slot and fetch the next job.
    Fetch,
}

/// The next step of the loop: stop once stopped; wait while the queue is
/// paused (an unanswered pause check counts as not paused); wait briefly while
/// every slot is busy; else fetch.
pub open spec fn poll_action(running: bool, paused: Option<bool>, slot_free: bool, poll_interval: u64) -> WorkerAction {
    if !running {
        WorkerAction::Stop
    } else if paused == Some(true) {
        WorkerAction::Sleep(poll_interval)
    } else if !slot_free {
        WorkerAction::Sleep(100)
    } else {
        WorkerAction::Fetch
    }
}

/// Decides the next step of the loop.
pub fn next_action(running: bool, paused: Option<bool>, slot_free: bool, poll_interval: u64) -> (r: WorkerAction)
    ensures
        r == poll_action(running, paused, slot_free, poll_interval),
{
    if !running {
        WorkerAction::Stop
    } else if paused == Some(true) {
        WorkerAction::Sleep(poll_interval)
    } else if !slot_free {
        WorkerAction::Sleep(100)
    } else {
        WorkerAction::Fetch
    }
}

/// How a fetched job's run ended.
pub enum RunOutcome {
    /// The handler returned this JSON value.
    Completed(String),
    /// The handler failed with this message.
    Failed(String),
    /// The time limit passed.
    TimedOut,
    /// No handler is registered under the job's name.
    NoHandler,
}

/// What the queue is told after a run.
pub enum Settlement {
    /// Complete the job with this result.
    Complete(String),
    /// Fail the job with this message.
    Fail(String),
}

/// The settlement of each outcome: a timed-out job fails with `任务执行超时`,
/// one without a handler with `未找到任务处理器`.
pub open spec fn settlement_of(o: RunOutcome) -> (bool, Seq<char>) {
    match o {
        RunOutcome::Completed(v) => (true, v@),
        RunOutcome::Failed(m) => (false, m@),
        RunOutcome::TimedOut => (false, "任务执行超时"@),
        RunOutcome::NoHandler => (false, "未找到任务处理器"@),
    }
}

/// Settles a run.
pub fn settle(o: RunOutcome) -> (r: Settlement)
    ensures
        match r {
            Settlement::Complete(v) => settlement_of(o) == (true, v@),
            Settlement::Fail(m) => settlement_of(o) == (false, m@),
        },
{
    match o {
        RunOutcome::Completed(v) => Settlement::Complete(v),
        RunOutcome::Failed(m) => Settlement::Fail(m),
        RunOutcome::TimedOut => Settlement::Fail(to_owned_string("任务执行超时")),
        RunOutcome::NoHandler => Settlement::Fail(to_owned_string("未找到任务处理器")),
    }
}

} // verus!
