//! Download batch bookkeeping: counting task outcomes and deriving the
//! status that a batch shows.

use vstd::prelude::*;
use crate::text::str_eq;
use crate::models::DownloadBatchTaskItem;

verus! {

/// How a task's status counts toward its batch.
#[derive(Clone, Copy, PartialEq, Eq, Structural, Debug)]
pub enum StatusClass {
    Success,
    Failed,
    Running,
    Queued,
}

/// `"success"`, `"failed"` and `"running"` count as themselves; every other
/// status counts as queued.
pub open spec fn status_class(s: Seq<char>) -> StatusClass {
    if s == "success"@ {
        StatusClass::Success
    } else if s == "failed"@ {
        StatusClass::Failed
    } else if s == "running"@ {
        StatusClass::Running
    } else {
        StatusClass::Queued
    }
}

/// How many of `statuses` fall in class `c`.
pub open spec fn count_class(statuses: Seq<Seq<char>>, c: StatusClass) -> nat
    decreases statuses.len(),
{
    if statuses.len() == 0 {
        0
    } else {
        count_class(statuses.drop_last(), c) + if status_class(statuses.last()) == c {
            1nat
        } else {
            0nat
        }
    }
}

/// Task counts of one batch.
#[derive(Clone, Copy, Debug)]
pub struct BatchTaskStats {
    pub total_seen: u32,
    pub queued_count: u32,
    pub running_count: u32,
    pub success_count: u32,
    pub failed_count: u32,
}

impl BatchTaskStats {
    /// All counts zero.
    pub fn zero() -> (s: BatchTaskStats)
        ensures
            s.total_seen == 0 && s.queued_count == 0 && s.running_count == 0 && s.success_count
                == 0 && s.failed_count == 0,
    {
        BatchTaskStats {
            total_seen: 0,
            queued_count: 0,
            running_count: 0,
            success_count: 0,
            failed_count: 0,
        }
    }

    /// The counter that class `c` increments.
    pub open spec fn count_of(self, c: StatusClass) -> nat {
        match c {
            StatusClass::Success => self.success_count as nat,
            StatusClass::Failed => self.failed_count as nat,
            StatusClass::Running => self.running_count as nat,
            StatusClass::Queued => self.queued_count as nat,
        }
    }

    /// The four counters are those of `statuses`.
    pub open spec fn counts_statuses(self, statuses: Seq<Seq<char>>) -> bool {
        &&& self.success_count == count_class(statuses, StatusClass::Success)
        &&& self.failed_count == count_class(statuses, StatusClass::Failed)
        &&& self.running_count == count_class(statuses, StatusClass::Running)
        &&& self.queued_count == count_class(statuses, StatusClass::Queued)
    }
}

/// Classifies a status text.
pub fn classify_status(status: &str) -> (c: StatusClass)
    ensures
        c == status_class(status@),
{
    if str_eq(status, "success") {
        StatusClass::Success
    } else if str_eq(status, "failed") {
        StatusClass::Failed
    } else if str_eq(status, "running") {
        StatusClass::Running
    } else {
        StatusClass::Queued
    }
}

/// Counts one task of status `status`.
pub fn apply_task_status(stats: &mut BatchTaskStats, status: &str)
    requires
        old(stats).count_of(status_class(status@)) < u32::MAX,
    ensures
        final(stats).total_seen == old(stats).total_seen,
        forall|c: StatusClass|
            #![trigger final(stats).count_of(c)]
            final(stats).count_of(c) == old(stats).count_of(c) + if c == status_class(status@) {
                1nat
            } else {
                0nat
            },
{
    match classify_status(status) {
        StatusClass::Success => stats.success_count = stats.success_count + 1,
        StatusClass::Failed => stats.failed_count = stats.failed_count + 1,
        StatusClass::Running => stats.running_count = stats.running_count + 1,
        StatusClass::Queued => stats.queued_count = stats.queued_count + 1,
    }
}

pub proof fn lemma_count_class_bound(statuses: Seq<Seq<char>>, c: StatusClass)
    ensures
        count_class(statuses, c) <= statuses.len(),
    decreases statuses.len(),
{
    if statuses.len() > 0 {
        lemma_count_class_bound(statuses.drop_last(), c);
    }
}

/// The statuses of `items`, in order.
pub open spec fn item_statuses(items: Seq<DownloadBatchTaskItem>) -> Seq<Seq<char>> {
    items.map_values(|it: DownloadBatchTaskItem| it.status@)
}

/// Counts the outcomes of a batch's tasks. With no tasks, `total_seen` is the
/// batch's recorded total; otherwise it is the number of tasks.
pub fn summarize_batch_task_items(items: &Vec<DownloadBatchTaskItem>, total_count: u32) -> (stats:
    BatchTaskStats)
    requires
        items.len() <= u32::MAX,
    ensures
        stats.total_seen == if items.len() == 0 {
            total_count as nat
        } else {
            items.len() as nat
        },
        stats.counts_statuses(item_statuses(items@)),
{
    let mut stats = BatchTaskStats::zero();
    stats.total_seen = items.len() as u32;
    let mut i: usize = 0;
    while i < items.len()
        invariant
            i <= items.len() <= u32::MAX,
            stats.total_seen == items.len(),
            stats.counts_statuses(item_statuses(items@.take(i as int))),
        decreases items.len() - i,
    {
        let ghost before = item_statuses(items@.take(i as int));
        let ghost after = item_statuses(items@.take(i + 1));
        proof {
            assert(after.drop_last() =~= before);
            assert(after.last() == items@[i as int].status@);
            lemma_count_class_bound(before, status_class(items@[i as int].status@));
        }
        apply_task_status(&mut stats, items[i].status.as_str());
        proof {
            assert(stats.count_of(StatusClass::Success) == count_class(after, StatusClass::Success));
            assert(stats.count_of(StatusClass::Failed) == count_class(after, StatusClass::Failed));
            assert(stats.count_of(StatusClass::Running) == count_class(after, StatusClass::Running));
            assert(stats.count_of(StatusClass::Queued) == count_class(after, StatusClass::Queued));
        }
        i += 1;
    }
    assert(items@.take(items.len() as int) =~= items@);
    if stats.total_seen == 0 {
        stats.total_seen = total_count;
    }
    stats
}

/// The status a batch shows.
#[derive(Clone, Copy, PartialEq, Eq, Structural, Debug)]
pub enum BatchStatus {
    Queued,
    Running,
    Success,
    Failed,
    Partial,
}

/// A batch of `total` tasks is queued when empty or when every task is queued;
/// running while a task runs; success or failed when every task ended so;
/// partial when some succeeded and some failed; running otherwise.
pub open spec fn batch_status_spec(total: nat, stats: BatchTaskStats) -> BatchStatus {
    if total == 0 || stats.queued_count == total {
        BatchStatus::Queued
    } else if stats.running_count > 0 {
        BatchStatus::Running
    } else if stats.success_count == total {
        BatchStatus::Success
    } else if stats.failed_count == total {
        BatchStatus::Failed
    } else if stats.success_count > 0 && stats.failed_count > 0 {
        BatchStatus::Partial
    } else {
        BatchStatus::Running
    }
}

/// The text of a batch status.
pub open spec fn batch_status_text(s: BatchStatus) -> Seq<char> {
    match s {
        BatchStatus::Queued => "queued"@,
        BatchStatus::Running => "running"@,
        BatchStatus::Success => "success"@,
        BatchStatus::Failed => "failed"@,
        BatchStatus::Partial => "partial"@,
    }
}

/// The status text of a batch of `total_count` tasks with the given counts.
pub fn derive_batch_status(total_count: u32, stats: BatchTaskStats) -> (s: String)
    ensures
        s@ == batch_status_text(batch_status_spec(total_count as nat, stats)),
        total_count > 0 && stats.queued_count != total_count && stats.running_count > 0 ==> s@ == "running"@,
        s@ == "partial"@ ==> stats.running_count == 0 && stats.success_count > 0 && stats.failed_count > 0,
        total_count == 0 || stats.queued_count == total_count ==> s@ == "queued"@,
        total_count > 0 && stats.queued_count != total_count && stats.running_count == 0 && stats.success_count == total_count
            ==> s@ == "success"@,
        total_count > 0 && stats.queued_count != total_count && stats.running_count == 0 && stats.success_count != total_count
            && stats.failed_count == total_count ==> s@ == "failed"@,
{
    proof {
        reveal_strlit("queued");
        reveal_strlit("running");
        reveal_strlit("success");
        reveal_strlit("failed");
        reveal_strlit("partial");
        assert("partial"@[0] != "queued"@[0] && "partial"@[0] != "running"@[0] && "partial"@[0] != "success"@[0]
            && "partial"@[0] != "failed"@[0]);
    }
    let st = if total_count == 0 || stats.queued_count == total_count {
        "queued"
    } else if stats.running_count > 0 {
        "running"
    } else if stats.success_count == total_count {
        "success"
    } else if stats.failed_count == total_count {
        "failed"
    } else if stats.success_count > 0 && stats.failed_count > 0 {
        "partial"
    } else {
        "running"
    };
    st.to_owned()
}

/// The total a batch shows: its recorded total, or the number of tasks seen
/// when that is larger.
pub fn effective_total(total_count: u32, stats: BatchTaskStats) -> (t: u32)
    ensures
        t == if total_count >= stats.total_seen {
            total_count
        } else {
            stats.total_seen
        },
{
    if total_count >= stats.total_seen {
        total_count
    } else {
        stats.total_seen
    }
}

proof fn lemma_count_uniform(statuses: Seq<Seq<char>>, s: Seq<char>, c: StatusClass)
    requires
        forall|i: int| 0 <= i < statuses.len() ==> statuses[i] == s,
    ensures
        count_class(statuses, c) == if status_class(s) == c {
            statuses.len()
        } else {
            0
        },
    decreases statuses.len(),
{
    if statuses.len() > 0 {
        lemma_count_uniform(statuses.drop_last(), s, c);
    }
}

/// A batch whose tasks all succeeded, and which records no more tasks than it
/// holds, shows `success`; one whose tasks all failed shows `failed`.
pub proof fn law_uniform_batch_outcome(items: Seq<DownloadBatchTaskItem>, total_count: u32, stats:
    BatchTaskStats)
    requires
        items.len() > 0,
        total_count <= items.len(),
        stats.total_seen == items.len(),
        stats.counts_statuses(item_statuses(items)),
    ensures
        (forall|i: int| 0 <= i < items.len() ==> (#[trigger] items[i]).status@ == "success"@)
            ==> batch_status_spec(items.len(), stats) == BatchStatus::Success,
        (forall|i: int| 0 <= i < items.len() ==> (#[trigger] items[i]).status@ == "failed"@)
            ==> batch_status_spec(items.len(), stats) == BatchStatus::Failed,
{
    reveal_strlit("success");
    reveal_strlit("failed");
    reveal_strlit("running");
    let st = item_statuses(items);
    if forall|i: int| 0 <= i < items.len() ==> (#[trigger] items[i]).status@ == "success"@ {
        assert forall|i: int| 0 <= i < st.len() implies st[i] == "success"@ by {
            assert(st[i] == items[i].status@);
        }
        lemma_count_uniform(st, "success"@, StatusClass::Queued);
        lemma_count_uniform(st, "success"@, StatusClass::Running);
        lemma_count_uniform(st, "success"@, StatusClass::Success);
    }
    if forall|i: int| 0 <= i < items.len() ==> (#[trigger] items[i]).status@ == "failed"@ {
        assert forall|i: int| 0 <= i < st.len() implies st[i] == "failed"@ by {
            assert(st[i] == items[i].status@);
        }
        assert("failed"@.len() != "success"@.len());
        lemma_count_uniform(st, "failed"@, StatusClass::Queued);
        lemma_count_uniform(st, "failed"@, StatusClass::Running);
        lemma_count_uniform(st, "failed"@, StatusClass::Success);
        lemma_count_uniform(st, "failed"@, StatusClass::Failed);
    }
}

/// Every task falls in exactly one class: the four counts add up to the
/// number of tasks.
pub proof fn law_each_task_counted_once(statuses: Seq<Seq<char>>)
    ensures
        count_class(statuses, StatusClass::Queued) + count_class(statuses, StatusClass::Running)
            + count_class(statuses, StatusClass::Success) + count_class(statuses, StatusClass::Failed)
            == statuses.len(),
    decreases statuses.len(),
{
    if statuses.len() > 0 {
        law_each_task_counted_once(statuses.drop_last());
    }
}

/// The status a batch of `total` tasks shows when its tasks have `statuses`.
pub open spec fn status_of_tasks(total: nat, statuses: Seq<Seq<char>>) -> BatchStatus {
    let queued = count_class(statuses, StatusClass::Queued);
    let running = count_class(statuses, StatusClass::Running);
    let success = count_class(statuses, StatusClass::Success);
    let failed = count_class(statuses, StatusClass::Failed);
    if total == 0 || queued == total {
        BatchStatus::Queued
    } else if running > 0 {
        BatchStatus::Running
    } else if success == total {
        BatchStatus::Success
    } else if failed == total {
        BatchStatus::Failed
    } else if success > 0 && failed > 0 {
        BatchStatus::Partial
    } else {
        BatchStatus::Running
    }
}

/// Counts that are those of `statuses` give the status of those tasks.
pub proof fn lemma_status_from_counts(total: nat, stats: BatchTaskStats, statuses: Seq<Seq<char>>)
    requires
        stats.counts_statuses(statuses),
    ensures
        batch_status_spec(total, stats) == status_of_tasks(total, statuses),
{
}

/// Whether a batch of `total` tasks is complete: every task counted as a
/// success or a failure.
pub open spec fn batch_complete(total: int, success: int, failed: int) -> bool {
    success + failed >= total
}

/// Whether a batch of `total` tasks is complete.
pub fn is_batch_complete(total: u32, success: u32, failed: u32) -> (r: bool)
    ensures
        r == batch_complete(total as int, success as int, failed as int),
{
    success as u64 + failed as u64 >= total as u64
}


/// A batch in which a task still runs shows `running` (unless every task is
/// queued): no task still downloading lets it show finished.
pub proof fn law_running_task_keeps_batch_running(total: nat, stats: BatchTaskStats)
    requires
        total > 0,
        stats.queued_count != total,
        stats.running_count > 0,
    ensures
        batch_status_spec(total, stats) == BatchStatus::Running,
{
}

/// `partial` means the batch has settled with a mix: nothing runs, some
/// tasks succeeded and some failed. Likewise `success` and `failed` are shown
/// only when no task runs.
pub proof fn law_partial_only_when_settled(total: nat, stats: BatchTaskStats)
    ensures
        batch_status_spec(total, stats) == BatchStatus::Partial
            ==> stats.running_count == 0 && stats.success_count > 0 && stats.failed_count > 0,
        batch_status_spec(total, stats) == BatchStatus::Success ==> stats.running_count == 0 || total == 0,
        batch_status_spec(total, stats) == BatchStatus::Failed ==> stats.running_count == 0 || total == 0,
        total > 0 && stats.queued_count != total && stats.running_count == 0 && stats.success_count != total
            && stats.failed_count != total && stats.success_count > 0 && stats.failed_count > 0
            ==> batch_status_spec(total, stats) == BatchStatus::Partial,
{
}

/// The same holds of the status read from the tasks' own statuses: a task
/// still running keeps the batch `running`, and `partial` needs no task
/// running, one success and one failure.
pub proof fn law_task_statuses_running_before_partial(total: nat, statuses: Seq<Seq<char>>)
    ensures
        total > 0 && count_class(statuses, StatusClass::Queued) != total && count_class(statuses, StatusClass::Running) > 0
            ==> status_of_tasks(total, statuses) == BatchStatus::Running,
        status_of_tasks(total, statuses) == BatchStatus::Partial ==> count_class(statuses, StatusClass::Running) == 0
            && count_class(statuses, StatusClass::Success) > 0 && count_class(statuses, StatusClass::Failed) > 0,
{
}

} // verus!
