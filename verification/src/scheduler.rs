//! The recording scheduler's bookkeeping and decisions: which accounts have
//! a running recorder, whether a live account gets one, and what happens to
//! recorders that exit.

use vstd::prelude::*;
use crate::text::{opt_view, trim_str, trim_spec, str_eq};
use crate::number::{parse_bounded, parse_bounded_spec};
use crate::error::{AppError, validation, validation_error};
use crate::models::RecordingAccountItem;
use crate::settings::SettingKey;

verus! {

/// A running recorder: the account it records and the task it reports to.
#[derive(Debug)]
pub struct ActiveRecordingJob {
    pub account_id: String,
    pub task_id: String,
}

/// Whether the scheduler loop was started, whether it was asked to stop, and
/// the running recorders, at most one per account.
#[derive(Debug)]
pub struct RecordingSchedulerState {
    started: bool,
    stop_requested: bool,
    active: Vec<ActiveRecordingJob>,
}

/// The account ids and task ids of a list of recorders.
pub open spec fn jobs_view(v: Seq<ActiveRecordingJob>) -> Seq<(Seq<char>, Seq<char>)> {
    v.map_values(|j: ActiveRecordingJob| (j.account_id@, j.task_id@))
}

/// No two recorders record the same account.
pub open spec fn distinct_accounts(v: Seq<(Seq<char>, Seq<char>)>) -> bool {
    forall|i: int, j: int| 0 <= i < j < v.len() ==> v[i].0 != v[j].0
}

/// The recorder of `account` among `v`, if any.
pub open spec fn job_for(v: Seq<(Seq<char>, Seq<char>)>, account: Seq<char>) -> Option<Seq<char>> {
    if exists|i: int| 0 <= i < v.len() && v[i].0 == account {
        let i = choose|i: int| 0 <= i < v.len() && v[i].0 == account;
        Some(v[i].1)
    } else {
        None
    }
}

impl RecordingSchedulerState {
    /// The running recorders as (account id, task id).
    pub closed spec fn jobs(&self) -> Seq<(Seq<char>, Seq<char>)> {
        jobs_view(self.active@)
    }

    /// Whether the scheduler loop was started.
    pub closed spec fn is_started(&self) -> bool {
        self.started
    }

    /// Whether the scheduler was asked to stop.
    pub closed spec fn stop_was_requested(&self) -> bool {
        self.stop_requested
    }

    /// No two recorders record the same account.
    pub closed spec fn wf(&self) -> bool {
        distinct_accounts(jobs_view(self.active@))
    }

    /// Not started, not stopping, nothing recording.
    pub fn new() -> (s: RecordingSchedulerState)
        ensures
            s.wf(),
            !s.is_started(),
            !s.stop_was_requested(),
            s.jobs() == Seq::<(Seq<char>, Seq<char>)>::empty(),
    {
        let s = RecordingSchedulerState { started: false, stop_requested: false, active: Vec::new() };
        assert(jobs_view(s.active@) =~= Seq::<(Seq<char>, Seq<char>)>::empty());
        s
    }

    /// Marks the scheduler started; gives whether the loop must be launched
    /// (false when it was already started).
    pub fn start(&mut self) -> (launch: bool)
        ensures
            launch == !old(self).is_started(),
            final(self).is_started(),
            final(self).stop_was_requested() == if launch {
                false
            } else {
                old(self).stop_was_requested()
            },
            final(self).jobs() == old(self).jobs(),
            final(self).wf() == old(self).wf(),
    {
        if self.started {
            return false;
        }
        self.started = true;
        self.stop_requested = false;
        true
    }

    /// Whether the scheduler was asked to stop.
    pub fn is_stop_requested(&self) -> (r: bool)
        ensures
            r == self.stop_was_requested(),
    {
        self.stop_requested
    }

    /// Asks the scheduler to stop and hands back every running recorder.
    pub fn request_stop(&mut self) -> (jobs: Vec<ActiveRecordingJob>)
        ensures
            final(self).stop_was_requested(),
            final(self).is_started() == old(self).is_started(),
            final(self).jobs() == Seq::<(Seq<char>, Seq<char>)>::empty(),
            final(self).wf(),
            jobs_view(jobs@) == old(self).jobs(),
    {
        self.stop_requested = true;
        let mut jobs: Vec<ActiveRecordingJob> = Vec::new();
        std::mem::swap(&mut jobs, &mut self.active);
        assert(jobs_view(self.active@) =~= Seq::<(Seq<char>, Seq<char>)>::empty());
        jobs
    }

    /// The accounts with a running recorder.
    pub fn active_account_ids(&self) -> (ids: Vec<String>)
        ensures
            ids@.len() == self.jobs().len(),
            forall|k: int| 0 <= k < ids@.len() ==> (#[trigger] ids@[k])@ == self.jobs()[k].0,
    {
        let mut ids: Vec<String> = Vec::new();
        let mut i: usize = 0;
        while i < self.active.len()
            invariant
                i <= self.active.len(),
                ids@.len() == i,
                forall|k: int| 0 <= k < i ==> (#[trigger] ids@[k])@ == self.active@[k].account_id@,
            decreases self.active.len() - i,
        {
            ids.push(self.active[i].account_id.clone());
            i += 1;
        }
        ids
    }

    fn index_of(&self, account_id: &str) -> (r: Option<usize>)
        ensures
            r matches Some(i) ==> i < self.active@.len() && self.active@[i as int].account_id@
                == account_id@,
            r is None ==> forall|i: int| 0 <= i < self.active@.len() ==> self.active@[i].account_id@ != account_id@,
    {
        let mut i: usize = 0;
        while i < self.active.len()
            invariant
                i <= self.active.len(),
                forall|k: int| 0 <= k < i ==> self.active@[k].account_id@ != account_id@,
            decreases self.active.len() - i,
        {
            if str_eq(self.active[i].account_id.as_str(), account_id) {
                return Some(i);
            }
            i += 1;
        }
        None
    }

    /// Removes and gives the recorder of `account_id`, if one runs.
    pub fn take_job(&mut self, account_id: &str) -> (job: Option<ActiveRecordingJob>)
        requires
            old(self).wf(),
        ensures
            final(self).wf(),
            final(self).is_started() == old(self).is_started(),
            final(self).stop_was_requested() == old(self).stop_was_requested(),
            job matches Some(j) ==> old(self).jobs().contains((j.account_id@, j.task_id@))
                && j.account_id@ == account_id@,
            job is None <==> job_for(old(self).jobs(), account_id@) is None,
            job matches Some(j) ==> job_for(old(self).jobs(), account_id@) == Some(j.task_id@),
            job_for(final(self).jobs(), account_id@) is None,
            forall|a: Seq<char>| a != account_id@ ==> #[trigger] job_for(final(self).jobs(), a) == job_for(old(self).jobs(), a),
    {
        let ghost before = jobs_view(self.active@);
        match self.index_of(account_id) {
            Some(i) => {
                let job = self.active.remove(i);
                let ghost after = jobs_view(self.active@);
                proof {
                    assert(before[i as int] == (job.account_id@, job.task_id@));
                    assert(after =~= before.remove(i as int));
                    assert(job_for(before, account_id@) == Some(job.task_id@)) by {
                        let k = choose|k: int| 0 <= k < before.len() && before[k].0 == account_id@;
                        if k != i {
                            if k < i {
                                assert(before[k].0 != before[i as int].0);
                            } else {
                                assert(before[i as int].0 != before[k].0);
                            }
                        }
                    }
                    assert(distinct_accounts(after)) by {
                        assert forall|a: int, b: int| 0 <= a < b < after.len() implies after[a].0 != after[b].0 by {
                            let a2 = if a < i { a } else { a + 1 };
                            let b2 = if b < i { b } else { b + 1 };
                            assert(after[a] == before[a2]);
                            assert(after[b] == before[b2]);
                        }
                    }
                    assert forall|a: Seq<char>| a != account_id@ implies #[trigger] job_for(after, a) == job_for(before, a) by {
                        if exists|k: int| 0 <= k < before.len() && before[k].0 == a {
                            let k = choose|k: int| 0 <= k < before.len() && before[k].0 == a;
                            let k2 = if k < i { k } else { k - 1 };
                            assert(k != i);
                            assert(after[k2] == before[k]);
                            let m = choose|m: int| 0 <= m < after.len() && after[m].0 == a;
                            let m2 = if m < i { m } else { m + 1 };
                            assert(after[m] == before[m2]);
                            if m2 != k {
                                if m2 < k {
                                    assert(before[m2].0 != before[k].0);
                                } else {
                                    assert(before[k].0 != before[m2].0);
                                }
                            }
                        } else {
                            if exists|m: int| 0 <= m < after.len() && after[m].0 == a {
                                let m = choose|m: int| 0 <= m < after.len() && after[m].0 == a;
                                let m2 = if m < i { m } else { m + 1 };
                                assert(after[m] == before[m2]);
                            }
                        }
                    }
                    if exists|m: int| 0 <= m < after.len() && after[m].0 == account_id@ {
                        let m = choose|m: int| 0 <= m < after.len() && after[m].0 == account_id@;
                        let m2 = if m < i { m } else { m + 1 };
                        assert(after[m] == before[m2]);
                        if m2 < i {
                            assert(before[m2].0 != before[i as int].0);
                        } else {
                            assert(before[i as int].0 != before[m2].0);
                        }
                    }
                }
                Some(job)
            },
            None => {
                proof {
                    if exists|k: int| 0 <= k < before.len() && before[k].0 == account_id@ {
                        let k = choose|k: int| 0 <= k < before.len() && before[k].0 == account_id@;
                        assert(self.active@[k].account_id@ == before[k].0);
                    }
                }
                None
            },
        }
    }

    /// Records a new recorder, replacing the account's previous one, if any.
    pub fn insert_job(&mut self, job: ActiveRecordingJob)
        requires
            old(self).wf(),
        ensures
            final(self).wf(),
            final(self).is_started() == old(self).is_started(),
            final(self).stop_was_requested() == old(self).stop_was_requested(),
            job_for(final(self).jobs(), job.account_id@) == Some(job.task_id@),
            forall|a: Seq<char>| a != job.account_id@ ==> #[trigger] job_for(final(self).jobs(), a) == job_for(old(self).jobs(), a),
    {
        let _ = self.take_job(job.account_id.as_str());
        let ghost mid = jobs_view(self.active@);
        let ghost id = job.account_id@;
        let ghost tid = job.task_id@;
        self.active.push(job);
        let ghost after = jobs_view(self.active@);
        proof {
            assert(after =~= mid.push((id, tid)));
            assert(forall|k: int| 0 <= k < mid.len() ==> mid[k].0 != id);
            assert(distinct_accounts(after)) by {
                assert forall|a: int, b: int| 0 <= a < b < after.len() implies after[a].0 != after[b].0 by {
                    if b == mid.len() {
                        assert(after[a] == mid[a]);
                    } else {
                        assert(after[a] == mid[a]);
                        assert(after[b] == mid[b]);
                    }
                }
            }
            let last = mid.len() as int;
            assert(after[last].0 == id);
            assert(job_for(after, id) == Some(tid)) by {
                let k = choose|k: int| 0 <= k < after.len() && after[k].0 == id;
                if k != last {
                    assert(after[k] == mid[k]);
                }
            }
            assert forall|a: Seq<char>| a != id implies #[trigger] job_for(after, a) == job_for(mid, a) by {
                if exists|k: int| 0 <= k < mid.len() && mid[k].0 == a {
                    let k = choose|k: int| 0 <= k < mid.len() && mid[k].0 == a;
                    assert(after[k] == mid[k]);
                    let m = choose|m: int| 0 <= m < after.len() && after[m].0 == a;
                    assert(m != last);
                    assert(after[m] == mid[m]);
                    if m != k {
                        if m < k {
                            assert(mid[m].0 != mid[k].0);
                        } else {
                            assert(mid[k].0 != mid[m].0);
                        }
                    }
                } else if exists|m: int| 0 <= m < after.len() && after[m].0 == a {
                    let m = choose|m: int| 0 <= m < after.len() && after[m].0 == a;
                    assert(m != last);
                    assert(after[m] == mid[m]);
                }
            }
        }
    }
}

/// A recorder recorded for an account is the one taken back for it, and
/// once taken the account has none.
pub proof fn law_recorder_taken_back(
    before: RecordingSchedulerState,
    job: ActiveRecordingJob,
    after_insert: RecordingSchedulerState,
    taken: Option<ActiveRecordingJob>,
    after_take: RecordingSchedulerState,
)
    requires
        before.wf(),
        job_for(after_insert.jobs(), job.account_id@) == Some(job.task_id@),
        taken is None <==> job_for(after_insert.jobs(), job.account_id@) is None,
        taken matches Some(j) ==> job_for(after_insert.jobs(), job.account_id@) == Some(j.task_id@),
        job_for(after_take.jobs(), job.account_id@) is None,
    ensures
        taken matches Some(j) && j.task_id@ == job.task_id@,
        job_for(after_take.jobs(), job.account_id@) is None,
{
}

/// What the scheduler does about a live check of an enabled account.
#[derive(Clone, Copy, PartialEq, Eq, Structural, Debug)]
pub enum StartDecision {
    /// Not live, not set to start automatically, or not a douyin account.
    Skip,
    /// Live and eligible, but every recording slot is taken.
    NoSlot,
    /// Start a recorder.
    Start,
}

/// Only a live douyin account set to start automatically gets a recorder, and
/// only while fewer than `max_concurrency` recorders run.
pub open spec fn start_decision_spec(live_status: Seq<char>, auto_start: bool, platform: Seq<char>, active_count: nat, max_concurrency: nat) -> StartDecision {
    if live_status != "live"@ || !auto_start || platform != "douyin"@ {
        StartDecision::Skip
    } else if active_count >= max_concurrency {
        StartDecision::NoSlot
    } else {
        StartDecision::Start
    }
}

/// A recorder starts only into a free slot: a `Start` decision is given
/// only while fewer than `max_concurrency` recorders run, so counting each
/// start keeps the number running within the limit.
pub proof fn law_start_needs_a_free_slot(live_status: Seq<char>, auto_start: bool, platform: Seq<char>, active_count: nat, max_concurrency: nat)
    ensures
        start_decision_spec(live_status, auto_start, platform, active_count, max_concurrency) == StartDecision::Start
            ==> active_count + 1 <= max_concurrency,
        start_decision_spec(live_status, auto_start, platform, active_count, max_concurrency) == StartDecision::Start
            ==> live_status == "live"@ && auto_start && platform == "douyin"@,
{
}

/// Decides whether a checked account gets a recorder.
pub fn decide_recording_start(account: &RecordingAccountItem, live_status: &str, active_count: usize, max_concurrency: usize) -> (d: StartDecision)
    ensures
        d == start_decision_spec(live_status@, account.auto_start, account.platform@, active_count as nat, max_concurrency as nat),
        live_status@ == "live"@ && account.auto_start && account.platform@ == "douyin"@ ==> (d == StartDecision::Start
            <==> active_count < max_concurrency),
        live_status@ == "live"@ && account.auto_start && account.platform@ == "douyin"@ ==> (d == StartDecision::NoSlot
            <==> active_count >= max_concurrency),
        !(live_status@ == "live"@ && account.auto_start && account.platform@ == "douyin"@) ==> d == StartDecision::Skip,
{
    if !str_eq(live_status, "live") || !account.auto_start || !str_eq(account.platform.as_str(), "douyin") {
        StartDecision::Skip
    } else if active_count >= max_concurrency {
        StartDecision::NoSlot
    } else {
        StartDecision::Start
    }
}

/// The room to record: the reported room id, else the account's, trimmed.
pub open spec fn room_id_spec(live_room: Option<Seq<char>>, account_room: Option<Seq<char>>) -> Seq<char> {
    trim_spec(match live_room {
        Some(r) => r,
        None => match account_room {
            Some(r) => r,
            None => seq![],
        },
    })
}

/// The room to record; a recording needs a non-blank room id.
pub fn recording_room_id(live_room: &Option<String>, account_room: &Option<String>) -> (r: Result<String, AppError>)
    ensures
        r is Ok <==> room_id_spec(opt_view(*live_room), opt_view(*account_room)).len() > 0,
        r matches Ok(id) ==> id@ == room_id_spec(opt_view(*live_room), opt_view(*account_room)),
        r matches Err(e) ==> e@ == validation_error("recording requires a valid room id"@),
{
    let raw: &str = match live_room {
        Some(r) => r.as_str(),
        None => match account_room {
            Some(r) => r.as_str(),
            None => "",
        },
    };
    proof {
        reveal_strlit("");
    }
    let id = trim_str(raw);
    if id.as_str().is_empty() {
        Err(validation("recording requires a valid room id"))
    } else {
        Ok(id)
    }
}

/// The failure recorded for a recorder that exited while its task still
/// showed `running`: none when the task had moved on.
pub open spec fn exit_failure_spec(task_status: Seq<char>, exited_ok: bool) -> Option<Seq<char>> {
    if task_status == "running"@ {
        Some(if exited_ok {
            "recording worker exited before updating task status"@
        } else {
            "recording worker exited unexpectedly"@
        })
    } else {
        None
    }
}

/// The failure to record for a recorder that exited.
pub fn recorder_exit_failure(task_status: &str, exited_ok: bool) -> (r: Option<&'static str>)
    ensures
        match r {
            Some(m) => exit_failure_spec(task_status@, exited_ok) == Some(m@),
            None => exit_failure_spec(task_status@, exited_ok) is None,
        },
{
    if str_eq(task_status, "running") {
        Some(if exited_ok {
            "recording worker exited before updating task status"
        } else {
            "recording worker exited unexpectedly"
        })
    } else {
        None
    }
}

/// The recording concurrency stored as `raw` (the download concurrency
/// setting): its decimal value after trimming, or 3, kept within 1 to 8.
pub open spec fn stored_recording_concurrency(raw: Option<Seq<char>>) -> nat {
    let configured = match raw {
        Some(r) => match parse_bounded_spec(trim_spec(r), usize::MAX as nat) {
            Some(n) => n,
            None => 3,
        },
        None => 3,
    };
    if configured < 1 {
        1
    } else if configured > 8 {
        8
    } else {
        configured
    }
}

/// Reads the recording concurrency from its stored text.
pub fn recording_concurrency_from_setting(raw: Option<String>) -> (n: usize)
    ensures
        n == stored_recording_concurrency(opt_view(raw)),
        1 <= n <= 8,
{
    let configured: u64 = match raw {
        Some(r) => {
            let t = trim_str(r.as_str());
            match parse_bounded(t.as_str(), usize::MAX as u64) {
                Some(n) => n,
                None => 3,
            }
        },
        None => 3,
    };
    if configured < 1 {
        1
    } else if configured > 8 {
        8
    } else {
        configured as usize
    }
}

/// The cookie setting the scheduler's checks use: only douyin accounts have one.
pub fn scheduler_cookie_key(platform: &str) -> (k: Option<SettingKey>)
    ensures
        k == if platform@ == "douyin"@ {
            Some(SettingKey::DouyinCookie)
        } else {
            None::<SettingKey>
        },
{
    if str_eq(platform, "douyin") {
        Some(SettingKey::DouyinCookie)
    } else {
        None
    }
}

/// The cookie setting a manual check uses: douyin's for douyin, tiktok's otherwise.
pub fn recording_cookie_key(platform: &str) -> (k: SettingKey)
    ensures
        k == if platform@ == "douyin"@ {
            SettingKey::DouyinCookie
        } else {
            SettingKey::TiktokCookie
        },
{
    if str_eq(platform, "douyin") {
        SettingKey::DouyinCookie
    } else {
        SettingKey::TiktokCookie
    }
}

/// Whether account `account_id` already records (its id is among
/// `active_ids`); the scheduler does not check such an account again.
pub fn already_recording(active_ids: &Vec<String>, account_id: &str) -> (r: bool)
    ensures
        r == crate::submit::views(active_ids@).contains(account_id@),
{
    crate::submit::contains_text(active_ids, &crate::text::chars_of(account_id))
}

/// The number of recordings running after a start was tried: one more when
/// it started.
pub fn count_after_start(active_count: usize, started: bool) -> (r: usize)
    requires
        active_count < usize::MAX,
    ensures
        r == active_count + if started { 1usize } else { 0usize },
{
    if started {
        active_count + 1
    } else {
        active_count
    }
}


/// The start rule is complete: a live douyin account with auto start gets a
/// recorder whenever fewer recorders run than the limit allows, and is held
/// back for want of a slot only when the limit is reached; so every slot up
/// to the limit is used.
pub proof fn law_free_slot_is_used(active_count: nat, max_concurrency: nat)
    ensures
        active_count < max_concurrency ==> start_decision_spec("live"@, true, "douyin"@, active_count, max_concurrency)
            == StartDecision::Start,
        active_count >= max_concurrency ==> start_decision_spec("live"@, true, "douyin"@, active_count, max_concurrency)
            == StartDecision::NoSlot,
        start_decision_spec("live"@, true, "douyin"@, active_count, max_concurrency) != StartDecision::Skip,
{
}

/// Starting one more recorder into a free slot never leaves a slot that the
/// next live account could not take unless the limit is then reached.
pub proof fn law_slots_fill_up_to_the_limit(active_count: nat, max_concurrency: nat)
    requires
        start_decision_spec("live"@, true, "douyin"@, active_count, max_concurrency) == StartDecision::Start,
    ensures
        start_decision_spec("live"@, true, "douyin"@, active_count + 1, max_concurrency) == StartDecision::NoSlot
            <==> active_count + 1 == max_concurrency,
{
}

} // verus!
