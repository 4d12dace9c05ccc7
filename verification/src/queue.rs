//! The download queue: jobs wait in arrival order and start while fewer
//! than the allowed number run.

use vstd::prelude::*;
use std::collections::VecDeque;
use crate::number::parse_bounded;
use crate::text::trim_str;

verus! {

/// One video download waiting to run.
#[derive(Debug)]
pub struct QueuedDownloadTask {
    pub task_id: String,
    pub batch_id: String,
    pub platform: String,
    pub source_url: String,
    pub download_cover: bool,
    pub download_music: bool,
    pub download_description: bool,
    pub download_lyric: bool,
}

/// How many waiting downloads start when `running` run, at most `max` may,
/// and `waiting` wait: the free slots, or fewer when fewer wait.
pub open spec fn ready_count(running: nat, max: nat, waiting: nat) -> int {
    let free: int = if running >= max {
        0
    } else {
        max - running
    };
    if free < waiting {
        free
    } else {
        waiting as int
    }
}

/// Starting ready downloads never lets more than `max` run (when no more
/// ran before), leaves none waiting while a slot is free, and hands them out
/// in arrival order: the started ones followed by the rest are the queue.
pub proof fn law_ready_jobs_respect_limit_and_order(pending: Seq<QueuedDownloadTask>, running: nat, max: nat)
    ensures
        ({
            let k = ready_count(running, max, pending.len());
            &&& 0 <= k <= pending.len()
            &&& running <= max ==> running + k <= max
            &&& running + k < max ==> k == pending.len()
            &&& pending.take(k) + pending.skip(k) == pending
        }),
{
    let k = ready_count(running, max, pending.len());
    assert(pending.take(k) + pending.skip(k) =~= pending);
}

/// When every slot is taken and downloads wait, a download that finishes
/// lets exactly one more start: the oldest waiting one.
pub proof fn law_finished_download_starts_the_next(pending: Seq<QueuedDownloadTask>, running: nat, max: nat)
    requires
        running == max,
        max >= 1,
        pending.len() > 0,
    ensures
        ready_count((running - 1) as nat, max, pending.len()) == 1,
        pending.take(1) == seq![pending[0]],
{
    assert(pending.take(1) =~= seq![pending[0]]);
}

/// Waiting downloads, in arrival order, and the number running.
#[derive(Debug)]
pub struct DownloadQueueManager {
    pending: VecDeque<QueuedDownloadTask>,
    running: usize,
}

impl DownloadQueueManager {
    /// The waiting downloads, oldest first.
    pub closed spec fn pending_jobs(&self) -> Seq<QueuedDownloadTask> {
        self.pending@
    }

    /// The number of downloads running.
    pub closed spec fn running_count(&self) -> nat {
        self.running as nat
    }

    /// An empty queue with nothing running.
    pub fn new() -> (q: DownloadQueueManager)
        ensures
            q.pending_jobs() == Seq::<QueuedDownloadTask>::empty(),
            q.running_count() == 0,
    {
        DownloadQueueManager { pending: VecDeque::new(), running: 0 }
    }

    /// The number of downloads running.
    pub fn running(&self) -> (n: usize)
        ensures
            n == self.running_count(),
    {
        self.running
    }

    /// The number of downloads waiting.
    pub fn pending_len(&self) -> (n: usize)
        ensures
            n == self.pending_jobs().len(),
    {
        self.pending.len()
    }

    /// Appends `jobs`, in order, behind the waiting ones.
    pub fn enqueue_batch(&mut self, jobs: Vec<QueuedDownloadTask>)
        ensures
            final(self).pending_jobs() == old(self).pending_jobs() + jobs@,
            final(self).running_count() == old(self).running_count(),
    {
        let mut jobs = jobs;
        let ghost all = jobs@;
        while jobs.len() > 0
            invariant
                jobs@.len() <= all.len(),
                self.pending@ == old(self).pending@ + all.take(all.len() - jobs@.len()),
                jobs@ == all.skip(all.len() - jobs@.len()),
                self.running == old(self).running,
            decreases jobs.len(),
        {
            let ghost before = jobs@;
            let job = jobs.remove(0);
            assert(job == all[all.len() - before.len()]);
            self.pending.push_back(job);
            assert(all.take(all.len() - jobs@.len()) =~= all.take(all.len() - before.len()).push(job));
            assert(jobs@ =~= all.skip(all.len() - jobs@.len()));
        }
        assert(all.take(all.len() as int) =~= all);
    }

    /// Marks one running download finished (never below zero).
    pub fn finish(&mut self)
        ensures
            final(self).pending_jobs() == old(self).pending_jobs(),
            final(self).running_count() == if old(self).running_count() > 0 {
                old(self).running_count() - 1
            } else {
                0
            },
    {
        if self.running > 0 {
            self.running -= 1;
        }
    }

    /// Starts the oldest waiting download when fewer than `max_concurrency` run.
    pub fn next_job(&mut self, max_concurrency: usize) -> (job: Option<QueuedDownloadTask>)
        ensures
            old(self).running_count() >= max_concurrency || old(self).pending_jobs().len() == 0 ==> {
                &&& job is None
                &&& final(self).pending_jobs() == old(self).pending_jobs()
                &&& final(self).running_count() == old(self).running_count()
            },
            old(self).running_count() < max_concurrency && old(self).pending_jobs().len() > 0 ==> {
                &&& job == Some(old(self).pending_jobs()[0])
                &&& final(self).pending_jobs() == old(self).pending_jobs().drop_first()
                &&& final(self).running_count() == old(self).running_count() + 1
            },
    {
        if self.running >= max_concurrency {
            return None;
        }
        match self.pending.pop_front() {
            Some(job) => {
                self.running += 1;
                Some(job)
            },
            None => None,
        }
    }

    /// Starts waiting downloads, oldest first, until `max_concurrency` run or
    /// none wait. Gives the started jobs in order.
    pub fn take_ready_jobs(&mut self, max_concurrency: usize) -> (jobs: Vec<QueuedDownloadTask>)
        ensures
            ({
                let k = ready_count(old(self).running_count(), max_concurrency as nat, old(self).pending_jobs().len());
                &&& jobs@ == old(self).pending_jobs().take(k)
                &&& final(self).pending_jobs() == old(self).pending_jobs().skip(k)
                &&& final(self).running_count() == old(self).running_count() + k
            }),
    {
        let mut out: Vec<QueuedDownloadTask> = Vec::new();
        let ghost start = old(self).pending@;
        assert(start.skip(0) =~= start);
        loop
            invariant
                out@.len() <= start.len(),
                out@ == start.take(out@.len() as int),
                self.pending@ == start.skip(out@.len() as int),
                self.running == old(self).running + out@.len(),
                out@.len() > 0 ==> old(self).running + out@.len() <= max_concurrency,
                start == old(self).pending@,
            ensures
                out@ == start.take(out@.len() as int),
                self.pending@ == start.skip(out@.len() as int),
                self.running == old(self).running + out@.len(),
                self.running >= max_concurrency || self.pending@.len() == 0,
                out@.len() > 0 ==> old(self).running + out@.len() <= max_concurrency,
            decreases self.pending@.len(),
        {
            let ghost n = out@.len();
            match self.next_job(max_concurrency) {
                Some(job) => {
                    out.push(job);
                    assert(start.take((n + 1) as int) =~= start.take(n as int).push(start[n as int]));
                    assert(start.skip((n + 1) as int) =~= start.skip(n as int).drop_first());
                },
                None => {
                    break;
                },
            }
        }
        out
    }
}

/// The download concurrency stored as `raw`, read as the settings read it
/// (`stored_concurrency`: its decimal value after trimming when within
/// 1..=8, else 3); at most 1 when `single_slot`.
pub open spec fn stored_download_concurrency(raw: Option<Seq<char>>, single_slot: bool) -> nat {
    let configured = crate::settings::stored_concurrency(raw);
    if single_slot && configured > 1 {
        1
    } else {
        configured
    }
}

/// Reads the download concurrency from its stored text.
pub fn download_concurrency_from_setting(raw: Option<String>, single_slot: bool) -> (n: usize)
    ensures
        n == stored_download_concurrency(crate::text::opt_view(raw), single_slot),
        1 <= n <= 8,
{
    let configured: usize = match raw {
        Some(r) => {
            let t = trim_str(r.as_str());
            match parse_bounded(t.as_str(), 0xffff_ffff) {
                Some(n) => if 1 <= n && n <= 8 {
                    n as usize
                } else {
                    3
                },
                None => 3,
            }
        },
        None => 3,
    };
    if single_slot && configured > 1 {
        1
    } else {
        configured
    }
}

} // verus!
