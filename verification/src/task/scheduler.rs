//! Cron-scheduled jobs: a table of jobs by id, each with a cron expression
//! that is checked when the job is added, and the decision of which jobs are
//! due at a moment.

use vstd::prelude::*;
use crate::assoc::{
    assoc_get, keys_unique, assoc_find, lemma_assoc_update, lemma_assoc_push, lemma_assoc_remove,
};
use crate::task::job::{JobOptions, JobError};
use crate::text::to_owned_string;
use crate::clock::now_millis;

verus! {

/// Whether `cron::Schedule` accepts `expr`.
pub uninterp spec fn cron_valid(expr: Seq<char>) -> bool;

/// The first time after `after_ms` (milliseconds since the epoch, UTC) that
/// the schedule `expr` names, in milliseconds.
pub uninterp spec fn cron_next(expr: Seq<char>, after_ms: int) -> Option<int>;

/// Parses `expr` with `cron::Schedule::from_str`. Trusted: the answer is a
/// function of `expr` alone.
#[verifier::external_body]
fn cron_parses(expr: &str) -> (r: bool)
    ensures
        r == cron_valid(expr@),
{
    <cron::Schedule as std::str::FromStr>::from_str(expr).is_ok()
}

/// The latest instant (milliseconds since the epoch) that a schedule may be
/// asked about: one second before chrono's last instant, since the schedule
/// starts its search one second after the instant it is given and chrono
/// panics past its range.
pub const CRON_AFTER_MAX_MS: i64 = 8_210_266_876_798_999;

/// The first time after `after_ms` named by `expr`, through
/// `cron::Schedule::after(..).next()` in UTC. Trusted: the answer is a
/// function of `expr` and `after_ms`, is `None` where `expr` does not parse,
/// and is later than `after_ms` (the search starts a second after it).
#[verifier::external_body]
fn cron_next_after(expr: &str, after_ms: i64) -> (r: Option<i64>)
    requires
        after_ms <= CRON_AFTER_MAX_MS,
    ensures
        r matches Some(t) ==> cron_next(expr@, after_ms as int) == Some(t as int) && t > after_ms,
        r is None ==> cron_next(expr@, after_ms as int) is None,
        !cron_valid(expr@) ==> r is None,
{
    let schedule = <cron::Schedule as std::str::FromStr>::from_str(expr).ok()?;
    let after = chrono::DateTime::from_timestamp_millis(after_ms)?;
    schedule.after(&after).next().map(|t| t.timestamp_millis())
}

/// A job run on a cron schedule.
#[derive(Debug)]
pub struct ScheduledJob {
    pub name: String,
    pub cron: String,
    /// The job's data, as JSON text.
    pub data: String,
    pub options: JobOptions,
    pub enabled: bool,
}

impl ScheduledJob {
    /// A field-by-field copy.
    pub fn copy(&self) -> (r: ScheduledJob)
        ensures
            r == *self,
    {
        ScheduledJob {
            name: self.name.clone(),
            cron: self.cron.clone(),
            data: self.data.clone(),
            options: self.options.copy(),
            enabled: self.enabled,
        }
    }
}

/// Whether a job whose next time is `next` fires at `now`: the whole seconds
/// from `now` to `next`, rounded toward zero, are 0 or 1.
pub open spec fn fires(next: int, now: int) -> bool {
    let d = next - now;
    let secs = if d >= 0 { d / 1000 } else { -((-d) / 1000) };
    0 <= secs <= 1
}

/// Decides whether a job whose next time is `next` fires at `now`.
pub fn fire_window(next: i64, now: i64) -> (r: bool)
    ensures
        r == fires(next as int, now as int),
{
    let d: i128 = (next as i128) - (now as i128);
    d > -1000 && d < 2000
}

/// The scheduler's table of jobs, by id.
pub struct Scheduler {
    jobs: Vec<(String, ScheduledJob)>,
}

impl Scheduler {
    /// Ids are unique and every stored cron expression parses.
    pub closed spec fn wf(&self) -> bool {
        &&& keys_unique(self.jobs@)
        &&& forall|i: int| 0 <= i < self.jobs@.len() ==> cron_valid(#[trigger] self.jobs@[i].1.cron@)
    }

    /// The jobs, in the order they were first added.
    pub closed spec fn entries(&self) -> Seq<(String, ScheduledJob)> {
        self.jobs@
    }

    /// The job stored under `id`.
    pub open spec fn get(&self, id: Seq<char>) -> Option<ScheduledJob> {
        assoc_get(self.entries(), id)
    }

    /// An empty scheduler.
    pub fn new() -> (r: Scheduler)
        ensures
            r.wf(),
            r.entries().len() == 0,
    {
        Scheduler { jobs: Vec::new() }
    }

    /// Adds or replaces the job `id`. The cron expression is checked first; one
    /// that does not parse is refused and nothing changes.
    pub fn add(&mut self, id: &str, job: ScheduledJob) -> (r: Result<(), JobError>)
        requires
            old(self).wf(),
        ensures
            final(self).wf(),
            r is Ok <==> cron_valid(job.cron@),
            r is Ok ==> forall|x: Seq<char>| #[trigger] final(self).get(x) == if x == id@ {
                Some(job)
            } else {
                old(self).get(x)
            },
            r is Err ==> final(self).entries() == old(self).entries(),
            r matches Err(e) ==> e matches JobError::Other(_),
    {
        if !cron_parses(job.cron.as_str()) {
            let mut msg = to_owned_string("无效的 Cron 表达式: ");
            msg.append(job.cron.as_str());
            return Err(JobError::Other(msg));
        }
        let ghost j = job;
        match assoc_find(&self.jobs, id) {
            Some(i) => {
                proof {
                    lemma_assoc_update(self.jobs@, i as int, j);
                }
                let key = self.jobs[i].0.clone();
                let ghost before = self.jobs@;
                self.jobs.set(i, (key, job));
                assert(self.jobs@ =~= before.update(i as int, (before[i as int].0, j)));
                assert forall|k: int| 0 <= k < self.jobs@.len() implies cron_valid(
                    #[trigger] self.jobs@[k].1.cron@,
                ) by {
                    if k != i {
                        assert(self.jobs@[k] == before[k]);
                    }
                }
            },
            None => {
                let e = (to_owned_string(id), job);
                proof {
                    lemma_assoc_push(self.jobs@, e);
                }
                let ghost before = self.jobs@;
                self.jobs.push(e);
                assert forall|k: int| 0 <= k < self.jobs@.len() implies cron_valid(
                    #[trigger] self.jobs@[k].1.cron@,
                ) by {
                    if k < before.len() {
                        assert(self.jobs@[k] == before[k]);
                    }
                }
            },
        }
        Ok(())
    }

    /// Removes the job `id`, if any.
    pub fn remove(&mut self, id: &str)
        requires
            old(self).wf(),
        ensures
            final(self).wf(),
            forall|x: Seq<char>| #[trigger] final(self).get(x) == if x == id@ {
                None
            } else {
                old(self).get(x)
            },
    {
        match assoc_find(&self.jobs, id) {
            Some(i) => {
                proof {
                    lemma_assoc_remove(self.jobs@, i as int);
                }
                let ghost before = self.jobs@;
                self.jobs.remove(i);
                assert forall|k: int| 0 <= k < self.jobs@.len() implies cron_valid(
                    #[trigger] self.jobs@[k].1.cron@,
                ) by {
                    let k2 = if k < i { k } else { k + 1 };
                    assert(self.jobs@[k] == before[k2]);
                }
            },
            None => {
                assert forall|x: Seq<char>| #[trigger] self.get(x) == if x == id@ {
                    None
                } else {
                    self.get(x)
                } by {}
            },
        }
    }

    fn set_enabled(&mut self, id: &str, enabled: bool)
        requires
            old(self).wf(),
        ensures
            final(self).wf(),
            forall|x: Seq<char>| #[trigger] final(self).get(x) == if x == id@ {
                match old(self).get(x) {
                    Some(j) => Some(ScheduledJob { enabled, ..j }),
                    None => None,
                }
            } else {
                old(self).get(x)
            },
    {
        match assoc_find(&self.jobs, id) {
            Some(i) => {
                let old_job = self.jobs[i].1.copy();
                let key = self.jobs[i].0.clone();
                let nj = ScheduledJob { enabled, ..old_job };
                let ghost n = nj;
                proof {
                    lemma_assoc_update(self.jobs@, i as int, n);
                }
                let ghost before = self.jobs@;
                self.jobs.set(i, (key, nj));
                assert(self.jobs@ =~= before.update(i as int, (before[i as int].0, n)));
                assert forall|k: int| 0 <= k < self.jobs@.len() implies cron_valid(
                    #[trigger] self.jobs@[k].1.cron@,
                ) by {
                    if k != i {
                        assert(self.jobs@[k] == before[k]);
                    } else {
                        assert(cron_valid(before[k].1.cron@));
                    }
                }
            },
            None => {},
        }
    }

    /// Enables the job `id`, if any.
    pub fn enable(&mut self, id: &str)
        requires
            old(self).wf(),
        ensures
            final(self).wf(),
            forall|x: Seq<char>| #[trigger] final(self).get(x) == if x == id@ {
                match old(self).get(x) {
                    Some(j) => Some(ScheduledJob { enabled: true, ..j }),
                    None => None,
                }
            } else {
                old(self).get(x)
            },
    {
        self.set_enabled(id, true)
    }

    /// Disables the job `id`, if any.
    pub fn disable(&mut self, id: &str)
        requires
            old(self).wf(),
        ensures
            final(self).wf(),
            forall|x: Seq<char>| #[trigger] final(self).get(x) == if x == id@ {
                match old(self).get(x) {
                    Some(j) => Some(ScheduledJob { enabled: false, ..j }),
                    None => None,
                }
            } else {
                old(self).get(x)
            },
    {
        self.set_enabled(id, false)
    }

    /// The jobs with their ids, in the order they were first added.
    pub fn list(&self) -> (r: Vec<(String, ScheduledJob)>)
        ensures
            r@.len() == self.entries().len(),
            forall|i: int| 0 <= i < r@.len() ==> (#[trigger] r@[i]).0@ == self.entries()[i].0@
                && r@[i].1 == self.entries()[i].1,
    {
        let mut out: Vec<(String, ScheduledJob)> = Vec::new();
        let mut i: usize = 0;
        while i < self.jobs.len()
            invariant
                i <= self.jobs@.len(),
                out@.len() == i,
                forall|k: int| 0 <= k < i ==> (#[trigger] out@[k]).0@ == self.jobs@[k].0@
                    && out@[k].1 == self.jobs@[k].1,
            decreases self.jobs.len() - i,
        {
            out.push((self.jobs[i].0.clone(), self.jobs[i].1.copy()));
            i = i + 1;
        }
        out
    }

    /// The ids of the enabled jobs that fire at `now`, in table order, given
    /// the next time of each job after `now`.
    pub fn due_at(&self, now: i64, next: &Vec<Option<i64>>) -> (r: Vec<String>)
        requires
            next@.len() == self.entries().len(),
        ensures
            r@.map_values(|s: String| s@) == due_ids(self.entries(), next@, now as int),
    {
        let mut out: Vec<String> = Vec::new();
        let mut i: usize = 0;
        while i < self.jobs.len()
            invariant
                i <= self.jobs@.len(),
                next@.len() == self.jobs@.len(),
                out@.map_values(|s: String| s@) == due_ids(
                    self.jobs@.take(i as int),
                    next@.take(i as int),
                    now as int,
                ),
            decreases self.jobs.len() - i,
        {
            assert(self.jobs@.take(i + 1).drop_last() =~= self.jobs@.take(i as int));
            assert(next@.take(i + 1).drop_last() =~= next@.take(i as int));
            assert(self.jobs@.take(i + 1).last() == self.jobs@[i as int]);
            assert(next@.take(i + 1).last() == next@[i as int]);
            let fire = self.jobs[i].1.enabled && match next[i] {
                Some(t) => fire_window(t, now),
                None => false,
            };
            if fire {
                let ghost before = out@;
                out.push(self.jobs[i].0.clone());
                assert(out@.map_values(|s: String| s@) =~= before.map_values(|s: String| s@).push(
                    self.jobs@[i as int].0@,
                ));
            }
            i = i + 1;
        }
        assert(self.jobs@.take(self.jobs@.len() as int) =~= self.jobs@);
        assert(next@.take(self.jobs@.len() as int) =~= next@);
        out
    }

    /// The ids of the jobs that fire at `now` (milliseconds since the epoch):
    /// each enabled job's next time after `now` is asked of its cron schedule.
    pub fn due_at_time(&self, now: i64) -> (r: Vec<String>)
        ensures
            r@.map_values(|s: String| s@) == due_ids(self.entries(), next_times(self.entries(), now), now as int),
    {
        let mut next: Vec<Option<i64>> = Vec::new();
        let mut i: usize = 0;
        while i < self.jobs.len()
            invariant
                i <= self.jobs@.len(),
                next@.len() == i,
                forall|k: int| 0 <= k < i ==> #[trigger] next@[k] == next_time(self.jobs@[k].1, now),
            decreases self.jobs.len() - i,
        {
            if self.jobs[i].1.enabled && now <= CRON_AFTER_MAX_MS {
                next.push(cron_next_after(self.jobs[i].1.cron.as_str(), now));
            } else {
                next.push(None);
            }
            i = i + 1;
        }
        proof {
            assert(next@ =~= next_times(self.jobs@, now));
        }
        self.due_at(now, &next)
    }

    /// The ids of the jobs that fire now, by the clock: `due_at_time` at the
    /// instant the clock gives.
    pub fn due_now(&self) -> (r: Vec<String>)
        ensures
            exists|now: i64|
                r@.map_values(|s: String| s@) == #[trigger] due_ids(
                    self.entries(),
                    next_times(self.entries(), now),
                    now as int,
                ),
    {
        let now = now_millis();
        self.due_at_time(now)
    }
}

/// When an enabled job fires next after `now` by its cron schedule; a
/// disabled job has no next time, and neither has any job at a `now` past
/// the last instant a schedule can be asked about.
pub open spec fn next_time(job: ScheduledJob, now: i64) -> Option<i64> {
    if job.enabled && now <= CRON_AFTER_MAX_MS {
        match cron_next(job.cron@, now as int) {
            Some(t) => Some(t as i64),
            None => None,
        }
    } else {
        None
    }
}

/// The next times of the jobs after `now`, in table order.
pub open spec fn next_times(jobs: Seq<(String, ScheduledJob)>, now: i64) -> Seq<Option<i64>> {
    Seq::new(jobs.len(), |k: int| next_time(jobs[k].1, now))
}

/// The ids of the enabled entries whose next time fires at `now`.
pub open spec fn due_ids(jobs: Seq<(String, ScheduledJob)>, next: Seq<Option<i64>>, now: int) -> Seq<Seq<char>>
    decreases jobs.len(),
{
    if jobs.len() == 0 || next.len() == 0 {
        seq![]
    } else {
        let prev = due_ids(jobs.drop_last(), next.drop_last(), now);
        let fire = jobs.last().1.enabled && match next.last() {
            Some(t) => fires(t as int, now),
            None => false,
        };
        if fire {
            prev.push(jobs.last().0@)
        } else {
            prev
        }
    }
}

/// Only enabled jobs fire: every id that is due names an enabled job of the
/// table, whatever the next times are.
pub proof fn law_only_enabled_jobs_fire(jobs: Seq<(String, ScheduledJob)>, next: Seq<Option<i64>>, now: int)
    ensures
        forall|i: int| 0 <= i < due_ids(jobs, next, now).len() ==> exists|k: int|
            0 <= k < jobs.len() && jobs[k].0@ == #[trigger] due_ids(jobs, next, now)[i]
                && jobs[k].1.enabled,
    decreases jobs.len(),
{
    if jobs.len() > 0 && next.len() > 0 {
        law_only_enabled_jobs_fire(jobs.drop_last(), next.drop_last(), now);
        let prev = due_ids(jobs.drop_last(), next.drop_last(), now);
        assert forall|i: int| 0 <= i < due_ids(jobs, next, now).len() implies exists|k: int|
            0 <= k < jobs.len() && jobs[k].0@ == #[trigger] due_ids(jobs, next, now)[i]
                && jobs[k].1.enabled by {
            if i < prev.len() {
                assert(due_ids(jobs, next, now)[i] == prev[i]);
                let k = choose|k: int|
                    0 <= k < jobs.drop_last().len() && jobs.drop_last()[k].0@ == #[trigger] prev[i]
                        && jobs.drop_last()[k].1.enabled;
                assert(jobs[k] == jobs.drop_last()[k]);
            } else {
                assert(jobs[jobs.len() - 1] == jobs.last());
            }
        }
    }
}

} // verus!
