//! The daemon's decision logic: when a scan is due, which failed jobs are
//! retried, and what happens to a job after its command ran.
//!
//! The loop itself — reading the clock, sleeping a short fixed tick,
//! listing directories, spawning the external command and performing the
//! returned operations — is a process concern outside this crate. All
//! times are seconds since the epoch; intervals are in seconds.

use vstd::prelude::*;

use crate::queue::{base58_of, entry_path, ErrState, FsOp, Job, NewState, Queue};

verus! {

/// The daemon's arguments: the two intervals and the command that
/// processes jobs.
#[derive(Debug)]
pub struct Args {
    /// Scan for new jobs at this interval (seconds).
    pub scan: u64,
    /// Retry failed jobs at this interval (seconds).
    pub retry: u64,
    /// The command used to process jobs.
    pub command: Vec<String>,
}

/// The idle tick between clock checks (seconds): the loop wakes this often
/// to re-check the clock rather than blocking until the deadline, which
/// bounds responsiveness to signals without busy-waiting.
pub const TICK_SECS: u64 = 1;

/// Whether a scan pass is due: the deadline has been reached.
pub fn scan_due(now: u64, deadline: u64) -> (r: bool)
    ensures
        r == (now >= deadline),
{
    now >= deadline
}

/// The next scan deadline, one interval later.
pub fn next_deadline(deadline: u64, scan: u64) -> (r: u64)
    requires
        deadline + scan <= u64::MAX,
    ensures
        r == deadline + scan,
{
    deadline + scan
}

/// Whether a failed job is due for retry: it has remained failed strictly
/// longer than the retry interval. On the boundary — exactly the interval
/// since failure — the job is left untouched until a later pass.
pub open spec fn due_spec(j: Job<ErrState>, now: u64, retry: u64) -> bool {
    j.since_time() + retry < now
}

/// The subsequence of jobs that are due for retry, in listing order.
pub open spec fn due_jobs(jobs: Seq<Job<ErrState>>, now: u64, retry: u64) -> Seq<Job<ErrState>>
    decreases jobs.len(),
{
    if jobs.len() == 0 {
        Seq::empty()
    } else {
        due_jobs(jobs.drop_last(), now, retry) + if due_spec(jobs.last(), now, retry) {
            seq![jobs.last()]
        } else {
            Seq::empty()
        }
    }
}

impl Job<ErrState> {
    /// Whether this job is due for retry at time `now` (see [`due_spec`]).
    pub fn due(&self, now: u64, retry: u64) -> (r: bool)
        ensures
            r == due_spec(*self, now, retry),
    {
        self.since() <= now && now - self.since() > retry
    }
}

/// The retry pass: moves exactly the failed jobs that are due for retry
/// back to `ready`, job by job, and leaves the ones failed more recently
/// untouched. Returns the renames to perform and the new ready handles, in
/// listing order; an error while performing one rename need not abort the
/// rest.
pub fn retry_pass(queue: &Queue, jobs: Vec<Job<ErrState>>, now: u64, retry: u64) -> (r: (
    Vec<FsOp>,
    Vec<Job<NewState>>,
))
    requires
        forall|k: int| 0 <= k < jobs@.len() ==> (#[trigger] jobs@[k]).wf(),
    ensures
        ({
            let due = due_jobs(jobs@, now, retry);
            &&& r.0@.len() == due.len()
            &&& r.1@.len() == due.len()
            &&& forall|k: int| 0 <= k < due.len() ==> {
                &&& (#[trigger] r.1@[k]).wf()
                &&& r.1@[k].id_bytes() == due[k].id_bytes()
                &&& r.0@[k] matches FsOp::Rename { from, to }
                    && from@ == entry_path(queue.path_failed@, base58_of(due[k].id_bytes()))
                    && to@ == entry_path(queue.path_ready@, base58_of(due[k].id_bytes()))
            }
        }),
{
    let ghost all = jobs@;
    let mut jobs = jobs;
    let total: usize = jobs.len();
    let mut ops: Vec<FsOp> = Vec::new();
    let mut out: Vec<Job<NewState>> = Vec::new();
    let mut i: usize = 0;
    while jobs.len() > 0
        invariant
            i <= all.len(),
            all.len() == total,
            jobs@ == all.skip(i as int),
            forall|k: int| 0 <= k < all.len() ==> (#[trigger] all[k]).wf(),
            ({
                let due = due_jobs(all.take(i as int), now, retry);
                &&& ops@.len() == due.len()
                &&& out@.len() == due.len()
                &&& forall|k: int| 0 <= k < due.len() ==> {
                    &&& (#[trigger] out@[k]).wf()
                    &&& out@[k].id_bytes() == due[k].id_bytes()
                    &&& ops@[k] matches FsOp::Rename { from, to }
                        && from@ == entry_path(queue.path_failed@, base58_of(due[k].id_bytes()))
                        && to@ == entry_path(queue.path_ready@, base58_of(due[k].id_bytes()))
                }
            }),
        decreases jobs@.len(),
    {
        let job = jobs.remove(0);
        proof {
            assert(all.skip(i as int)[0] == all[i as int]);
            assert(jobs@ =~= all.skip(i as int + 1));
            assert(all.take(i as int + 1).drop_last() =~= all.take(i as int));
            assert(all.take(i as int + 1).last() == all[i as int]);
        }
        if job.due(now, retry) {
            let (ready, op) = job.retry(queue);
            ops.push(op);
            out.push(ready);
        }
        i += 1;
    }
    proof {
        assert(all.take(all.len() as int) =~= all);
    }
    (ops, out)
}

/// What becomes of a ready job after its command ran: success completes it
/// (the returned operation deletes the job directory), failure moves it to
/// `failed` with `now` as its failure time and hands back the failed
/// handle. A spawn failure reaches neither outcome: it is fatal to the
/// daemon and the job stays in `ready` untouched.
pub fn run(queue: &Queue, job: Job<NewState>, success: bool, now: u64) -> (r: (
    FsOp,
    Option<Job<ErrState>>,
))
    requires
        job.wf(),
    ensures
        success ==> (r.0 matches FsOp::RemoveTree { path }
            && path@ == entry_path(queue.path_ready@, base58_of(job.id_bytes()))
            && r.1 is None),
        !success ==> (r.0 matches FsOp::Rename { from, to }
            && from@ == entry_path(queue.path_ready@, base58_of(job.id_bytes()))
            && to@ == entry_path(queue.path_failed@, base58_of(job.id_bytes()))
            && (r.1 matches Some(f) && f.wf() && f.id_bytes() == job.id_bytes()
                && f.since_time() == now)),
{
    if success {
        (job.complete(queue), None)
    } else {
        let (failed, op) = job.error(queue, now);
        (op, Some(failed))
    }
}

} // verus!
