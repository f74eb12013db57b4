use cool_admin::task::job::{Job, JobOptions, JobStatus, JobError};
use cool_admin::task::queue::{queue_key, job_key, queue_pattern, place_new_job, QueueSet, FailOutcome, fail_placement, count_set_of, is_due, is_plain_set};
use cool_admin::task::worker::{WorkerConfig, next_action, WorkerAction, settle, RunOutcome, Settlement};
use cool_admin::task::scheduler::{Scheduler, ScheduledJob, fire_window};
use cool_admin::task::{QueueType, TaskConfig, parse_queue_args, queue_config_from_args};

fn opts(retries: u32) -> JobOptions {
    JobOptions { retries, ..JobOptions::default() }
}

#[test]
fn job_defaults_and_new() {
    let o = JobOptions::default();
    assert_eq!(o.retries, 3);
    assert_eq!(o.timeout, 60);
    assert_eq!(o.priority, 0);
    let j = Job::new("mail", "send", "{}".to_string(), JobOptions { job_id: Some("j1".to_string()), ..JobOptions::default() });
    assert_eq!(j.id, "j1");
    assert_eq!(j.status, JobStatus::Waiting);
    assert_eq!(j.attempts, 0);
    let k = Job::new("mail", "send", "{}".to_string(), JobOptions::default());
    assert_eq!(k.id.len(), 36);
}

#[test]
fn job_lifecycle_with_retries() {
    let mut j = Job::new("q", "n", "null".to_string(), opts(2));
    j.mark_active();
    assert_eq!(j.status, JobStatus::Active);
    assert_eq!(j.attempts, 1);
    assert!(j.started_at.is_some());
    assert_eq!(j.fail("boom"), FailOutcome::Retry);
    assert_eq!(j.status, JobStatus::Waiting);
    assert_eq!(j.error.as_deref(), Some("boom"));
    j.mark_active();
    assert_eq!(j.attempts, 2);
    assert!(!j.can_retry());
    assert_eq!(j.fail("again"), FailOutcome::Failed);
    assert_eq!(j.status, JobStatus::Failed);
}

#[test]
fn job_completion() {
    let mut j = Job::new("q", "n", "1".to_string(), opts(3));
    j.mark_active();
    j.mark_completed(Some("{\"ok\":true}".to_string()));
    assert_eq!(j.status, JobStatus::Completed);
    assert!(j.finished_at.is_some());
    assert!(j.duration_ms().is_some());
    assert_eq!(JobStatus::Completed.as_str(), "completed");
}

#[test]
fn job_error_messages() {
    assert_eq!(JobError::Timeout.message(), "任务超时");
    assert_eq!(JobError::ExecutionFailed("x".to_string()).message(), "任务执行失败: x");
    assert_eq!(JobError::Other("y".to_string()).message(), "其他错误: y");
}

#[test]
fn queue_keys() {
    assert_eq!(queue_key("cool:task", "mail", "waiting"), "cool:task:mail:waiting");
    assert_eq!(job_key("cool:task", "mail", "42"), "cool:task:mail:job:42");
    assert_eq!(queue_pattern("p", "q"), "p:q:*");
}

#[test]
fn placement_of_new_jobs() {
    let mut j = Job::new("q", "n", "null".to_string(), JobOptions { priority: 5, ..JobOptions::default() });
    let p = place_new_job(&j, 1000);
    assert_eq!(p.set, QueueSet::Waiting);
    assert_eq!(p.score, -5);
    j.options.delay = Some(250);
    let d = place_new_job(&j, 1000);
    assert_eq!(d.set, QueueSet::Delayed);
    assert_eq!(d.score, 1250);
    assert_eq!(QueueSet::Delayed.suffix(), "delayed");
    assert!(is_due(1000, 1000));
    assert!(!is_due(1001, 1000));
}

#[test]
fn failure_placement_and_counting() {
    let r = fail_placement(FailOutcome::Retry, 77);
    assert_eq!((r.set, r.score), (QueueSet::Waiting, 0));
    let f = fail_placement(FailOutcome::Failed, 77);
    assert_eq!((f.set, f.score), (QueueSet::Failed, 77));
    assert_eq!(count_set_of(JobStatus::Paused), None);
    assert_eq!(count_set_of(JobStatus::Active), Some(QueueSet::Active));
    assert!(is_plain_set(QueueSet::Active));
    assert!(!is_plain_set(QueueSet::Waiting));
}

#[test]
fn worker_decisions() {
    let c = WorkerConfig::default();
    assert_eq!((c.concurrency, c.poll_interval, c.auto_start), (4, 1000, true));
    assert_eq!(next_action(false, None, true, 500), WorkerAction::Stop);
    assert_eq!(next_action(true, Some(true), true, 500), WorkerAction::Sleep(500));
    assert_eq!(next_action(true, None, false, 500), WorkerAction::Sleep(100));
    assert_eq!(next_action(true, Some(false), true, 500), WorkerAction::Fetch);
    match settle(RunOutcome::TimedOut) {
        Settlement::Fail(m) => assert_eq!(m, "任务执行超时"),
        _ => panic!("expected a failure"),
    }
    match settle(RunOutcome::NoHandler) {
        Settlement::Fail(m) => assert_eq!(m, "未找到任务处理器"),
        _ => panic!("expected a failure"),
    }
    match settle(RunOutcome::Completed("1".to_string())) {
        Settlement::Complete(v) => assert_eq!(v, "1"),
        _ => panic!("expected completion"),
    }
}

fn scheduled(cron: &str) -> ScheduledJob {
    ScheduledJob { name: "report".to_string(), cron: cron.to_string(), data: "{}".to_string(), options: JobOptions::default(), enabled: true }
}

#[test]
fn scheduler_checks_cron_expressions() {
    let mut s = Scheduler::new();
    assert!(s.add("bad", scheduled("not a cron")).is_err());
    assert!(s.list().is_empty());
    assert!(s.add("every", scheduled("* * * * * *")).is_ok());
    assert_eq!(s.list().len(), 1);
    s.disable("every");
    assert!(!s.list()[0].1.enabled);
    s.enable("every");
    assert!(s.list()[0].1.enabled);
    s.remove("every");
    assert!(s.list().is_empty());
}

#[test]
fn scheduler_fires_every_second_job() {
    let mut s = Scheduler::new();
    s.add("every", scheduled("* * * * * *")).unwrap();
    s.add("yearly", scheduled("0 0 0 1 1 * 2099")).unwrap();
    let due = s.due_now();
    assert_eq!(due, vec!["every".to_string()]);
}

#[test]
fn fire_window_rounds_toward_zero() {
    assert!(fire_window(1000, 1000));
    assert!(fire_window(1999, 0));
    assert!(!fire_window(2000, 0));
    assert!(fire_window(0, 999));
    assert!(!fire_window(0, 1000));
    let s = Scheduler::new();
    assert!(s.due_at(0, &vec![]).is_empty());
}

#[test]
fn queue_settings_from_arguments() {
    let a = parse_queue_args("type = \"getter\", retries = 5, timeout = 30, priority = -2, concurrency = 8, poll_interval = 250");
    assert_eq!(a.queue_type, "getter");
    assert_eq!((a.retries, a.timeout, a.priority, a.concurrency, a.poll_interval), (Some(5), Some(30), Some(-2), Some(8), Some(250)));
    let c = queue_config_from_args("type=\"single\", retries=x");
    assert_eq!(c.queue_type, QueueType::Single);
    assert_eq!(c.default_job.retries, 3);
    assert_eq!(c.worker.concurrency, 4);
    assert!(c.queue_type.has_worker());
    assert!(!QueueType::NoWorker.has_worker());
    assert_eq!(QueueType::from_name("whatever"), QueueType::Comm);
    let t = TaskConfig::default();
    assert_eq!(t.prefix, "cool:task");
    assert_eq!(t.redis_url, "redis://127.0.0.1:6379");
}
