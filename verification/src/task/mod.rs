//! Task queues: job lifecycle, queue decisions, worker decisions, cron
//! scheduling, and the settings read from `#[cool_queue(..)]`.

pub mod job;
pub mod queue;
pub mod scheduler;
pub mod worker;

use vstd::prelude::*;
use crate::task::job::JobOptions;
use crate::task::worker::WorkerConfig;
use crate::scan::{
    trim, unquote, strip_prefix, parse_unsigned, parse_signed, trim_ws, strip_prefix_chars,
    unquote_chars, parse_u32, parse_u64, parse_i32, parse_usize,
};
use crate::text::{split_spec, split_char, views, chars_of, to_owned_string};
use crate::attr::chars_are;

verus! {

/// The kinds of queue.
#[derive(Debug, Clone, Copy, PartialEq, Eq, Structural)]
pub enum QueueType {
    /// A queue with a worker.
    Comm,
    /// A queue only read for its state.
    Getter,
    /// A queue that only receives jobs.
    NoWorker,
    /// A queue with a single, global worker.
    Single,
}

impl Default for QueueType {
    fn default() -> (r: QueueType)
        ensures
            r == QueueType::Comm,
    {
        QueueType::Comm
    }
}

/// The kind a name stands for: `getter`, `noworker`, `single`, else `comm`.
pub open spec fn queue_type_of(name: Seq<char>) -> QueueType {
    if name == "getter"@ {
        QueueType::Getter
    } else if name == "noworker"@ {
        QueueType::NoWorker
    } else if name == "single"@ {
        QueueType::Single
    } else {
        QueueType::Comm
    }
}

impl QueueType {
    /// The kind named `name`.
    pub fn from_name(name: &str) -> (r: QueueType)
        ensures
            r == queue_type_of(name@),
    {
        let c = chars_of(name);
        if chars_are(&c, "getter") {
            QueueType::Getter
        } else if chars_are(&c, "noworker") {
            QueueType::NoWorker
        } else if chars_are(&c, "single") {
            QueueType::Single
        } else {
            QueueType::Comm
        }
    }

    /// Whether a queue of this kind gets a worker: `comm` and `single` do.
    pub fn has_worker(&self) -> (r: bool)
        ensures
            r == (*self == QueueType::Comm || *self == QueueType::Single),
    {
        match self {
            QueueType::Comm | QueueType::Single => true,
            _ => false,
        }
    }
}

/// A queue's settings.
#[derive(Debug)]
pub struct QueueConfig {
    pub queue_type: QueueType,
    pub default_job: JobOptions,
    pub worker: WorkerConfig,
}

/// Task system settings.
#[derive(Debug)]
pub struct TaskConfig {
    pub redis_url: String,
    pub prefix: String,
    pub default_retries: u32,
    pub default_timeout: u64,
    pub concurrency: usize,
}

impl Default for TaskConfig {
    /// A local Redis, prefix `cool:task`, 3 attempts, 60 seconds, 4 at once.
    fn default() -> (r: TaskConfig)
        ensures
            r.redis_url@ == "redis://127.0.0.1:6379"@,
            r.prefix@ == "cool:task"@,
            r.default_retries == 3,
            r.default_timeout == 60,
            r.concurrency == 4,
    {
        TaskConfig {
            redis_url: to_owned_string("redis://127.0.0.1:6379"),
            prefix: to_owned_string("cool:task"),
            default_retries: 3,
            default_timeout: 60,
            concurrency: 4,
        }
    }
}

/// What the arguments of `#[cool_queue(..)]` set.
pub struct QueueArgsSpec {
    pub queue_type: Seq<char>,
    pub retries: Option<u32>,
    pub timeout: Option<u64>,
    pub priority: Option<i32>,
    pub concurrency: Option<usize>,
    pub poll_interval: Option<u64>,
}

/// The parsed arguments of `#[cool_queue(..)]`.
pub struct QueueArgs {
    pub queue_type: String,
    pub retries: Option<u32>,
    pub timeout: Option<u64>,
    pub priority: Option<i32>,
    pub concurrency: Option<usize>,
    pub poll_interval: Option<u64>,
}

impl View for QueueArgs {
    type V = QueueArgsSpec;

    open spec fn view(&self) -> QueueArgsSpec {
        QueueArgsSpec {
            queue_type: self.queue_type@,
            retries: self.retries,
            timeout: self.timeout,
            priority: self.priority,
            concurrency: self.concurrency,
            poll_interval: self.poll_interval,
        }
    }
}

/// A number as `str::parse` reads it into `u32`.
pub open spec fn num_u32(v: Seq<char>) -> Option<u32> {
    match parse_unsigned(trim(v), u32::MAX as nat) {
        Some(n) => Some(n as u32),
        None => None,
    }
}

/// A number as `str::parse` reads it into `u64`.
pub open spec fn num_u64(v: Seq<char>) -> Option<u64> {
    match parse_unsigned(trim(v), u64::MAX as nat) {
        Some(n) => Some(n as u64),
        None => None,
    }
}

/// A number as `str::parse` reads it into `usize`.
pub open spec fn num_usize(v: Seq<char>) -> Option<usize> {
    match parse_unsigned(trim(v), usize::MAX as nat) {
        Some(n) => Some(n as usize),
        None => None,
    }
}

/// A number as `str::parse` reads it into `i32`.
pub open spec fn num_i32(v: Seq<char>) -> Option<i32> {
    match parse_signed(trim(v), i32::MAX as nat) {
        Some(n) => Some(n as i32),
        None => None,
    }
}

/// The value of `key = value` where `part` starts with `key`.
pub open spec fn keyed_value(part: Seq<char>, key: Seq<char>) -> Option<Seq<char>> {
    match strip_prefix(part, key) {
        Some(rest) => strip_prefix(trim(rest), "="@),
        None => None,
    }
}

/// The effect of one argument. The keys are tried in the order `type`,
/// `retries`, `timeout`, `priority`, `concurrency`, `poll_interval`; the first
/// that the argument starts with is the one read, and a number that does not
/// parse clears the setting.
pub open spec fn queue_step(acc: QueueArgsSpec, raw: Seq<char>) -> QueueArgsSpec {
    let part = trim(raw);
    if part.len() == 0 {
        acc
    } else if strip_prefix(part, "type"@) is Some {
        match keyed_value(part, "type"@) {
            Some(v) => QueueArgsSpec { queue_type: unquote(v), ..acc },
            None => acc,
        }
    } else if strip_prefix(part, "retries"@) is Some {
        match keyed_value(part, "retries"@) {
            Some(v) => QueueArgsSpec { retries: num_u32(v), ..acc },
            None => acc,
        }
    } else if strip_prefix(part, "timeout"@) is Some {
        match keyed_value(part, "timeout"@) {
            Some(v) => QueueArgsSpec { timeout: num_u64(v), ..acc },
            None => acc,
        }
    } else if strip_prefix(part, "priority"@) is Some {
        match keyed_value(part, "priority"@) {
            Some(v) => QueueArgsSpec { priority: num_i32(v), ..acc },
            None => acc,
        }
    } else if strip_prefix(part, "concurrency"@) is Some {
        match keyed_value(part, "concurrency"@) {
            Some(v) => QueueArgsSpec { concurrency: num_usize(v), ..acc },
            None => acc,
        }
    } else if strip_prefix(part, "poll_interval"@) is Some {
        match keyed_value(part, "poll_interval"@) {
            Some(v) => QueueArgsSpec { poll_interval: num_u64(v), ..acc },
            None => acc,
        }
    } else {
        acc
    }
}

/// The arguments read from left to right.
pub open spec fn queue_fold(parts: Seq<Seq<char>>) -> QueueArgsSpec
    decreases parts.len(),
{
    if parts.len() == 0 {
        QueueArgsSpec {
            queue_type: "comm"@,
            retries: None,
            timeout: None,
            priority: None,
            concurrency: None,
            poll_interval: None,
        }
    } else {
        queue_step(queue_fold(parts.drop_last()), parts.last())
    }
}

/// What a `#[cool_queue(..)]` argument text sets.
pub open spec fn queue_args_spec(args: Seq<char>) -> QueueArgsSpec {
    queue_fold(split_spec(args, ','))
}

fn keyed_value_exec(part: &Vec<char>, key: &str) -> (r: Option<Vec<char>>)
    ensures
        match keyed_value(part@, key@) {
            Some(v) => r matches Some(x) && x@ == v,
            None => r is None,
        },
{
    let k = chars_of(key);
    match strip_prefix_chars(part, &k) {
        Some(rest) => {
            let eq = chars_of("=");
            strip_prefix_chars(&trim_ws(&rest), &eq)
        },
        None => None,
    }
}

fn starts_with_key(part: &Vec<char>, key: &str) -> (r: bool)
    ensures
        r == strip_prefix(part@, key@) is Some,
{
    let k = chars_of(key);
    strip_prefix_chars(part, &k).is_some()
}

impl QueueArgs {
    #[verifier::rlimit(30)]
    fn step(&mut self, raw: &Vec<char>)
        ensures
            final(self)@ == queue_step(old(self)@, raw@),
    {
        let part = trim_ws(raw);
        if part.len() == 0 {
            return;
        }
        if starts_with_key(&part, "type") {
            if let Some(v) = keyed_value_exec(&part, "type") {
                self.queue_type = crate::attr::owned(&unquote_chars(&v));
            }
        } else if starts_with_key(&part, "retries") {
            if let Some(v) = keyed_value_exec(&part, "retries") {
                self.retries = parse_u32(&trim_ws(&v));
            }
        } else if starts_with_key(&part, "timeout") {
            if let Some(v) = keyed_value_exec(&part, "timeout") {
                self.timeout = parse_u64(&trim_ws(&v));
            }
        } else if starts_with_key(&part, "priority") {
            if let Some(v) = keyed_value_exec(&part, "priority") {
                self.priority = parse_i32(&trim_ws(&v));
            }
        } else if starts_with_key(&part, "concurrency") {
            if let Some(v) = keyed_value_exec(&part, "concurrency") {
                self.concurrency = parse_usize(&trim_ws(&v));
            }
        } else if starts_with_key(&part, "poll_interval") {
            if let Some(v) = keyed_value_exec(&part, "poll_interval") {
                self.poll_interval = parse_u64(&trim_ws(&v));
            }
        }
    }
}

/// Parses the argument text of `#[cool_queue(..)]`.
pub fn parse_queue_args(args: &str) -> (r: QueueArgs)
    ensures
        r@ == queue_args_spec(args@),
{
    let chars = chars_of(args);
    let parts = split_char(&chars, ',');
    let mut acc = QueueArgs {
        queue_type: to_owned_string("comm"),
        retries: None,
        timeout: None,
        priority: None,
        concurrency: None,
        poll_interval: None,
    };
    let mut i: usize = 0;
    while i < parts.len()
        invariant
            i <= parts.len(),
            views(parts@) == split_spec(args@, ','),
            acc@ == queue_fold(views(parts@).take(i as int)),
        decreases parts.len() - i,
    {
        assert(views(parts@).take(i + 1).drop_last() =~= views(parts@).take(i as int));
        assert(views(parts@).take(i + 1).last() == parts@[i as int]@);
        acc.step(&parts[i]);
        i = i + 1;
    }
    assert(views(parts@).take(parts.len() as int) =~= views(parts@));
    acc
}

/// The queue settings of `#[cool_queue(..)]`: the kind named by `type`, the
/// default job options with `retries`, `timeout` and `priority` where given,
/// and the default worker settings with `concurrency` and `poll_interval`
/// where given.
pub fn queue_config_from_args(args: &str) -> (r: QueueConfig)
    ensures
        r.queue_type == queue_type_of(queue_args_spec(args@).queue_type),
        r.default_job.retries == match queue_args_spec(args@).retries {
            Some(v) => v,
            None => 3,
        },
        r.default_job.timeout == match queue_args_spec(args@).timeout {
            Some(v) => v,
            None => 60,
        },
        r.default_job.priority == match queue_args_spec(args@).priority {
            Some(v) => v,
            None => 0,
        },
        r.default_job.delay is None,
        r.default_job.cron is None,
        r.default_job.job_id is None,
        r.worker.concurrency == match queue_args_spec(args@).concurrency {
            Some(v) => v,
            None => 4,
        },
        r.worker.poll_interval == match queue_args_spec(args@).poll_interval {
            Some(v) => v,
            None => 1000,
        },
        r.worker.auto_start,
{
    let a = parse_queue_args(args);
    let mut opt = JobOptions::default();
    if let Some(v) = a.retries {
        opt.retries = v;
    }
    if let Some(v) = a.timeout {
        opt.timeout = v;
    }
    if let Some(v) = a.priority {
        opt.priority = v;
    }
    let mut cfg = WorkerConfig::default();
    if let Some(v) = a.concurrency {
        cfg.concurrency = v;
    }
    if let Some(v) = a.poll_interval {
        cfg.poll_interval = v;
    }
    QueueConfig { queue_type: QueueType::from_name(a.queue_type.as_str()), default_job: opt, worker: cfg }
}

} // verus!
