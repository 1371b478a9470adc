//! Bookkeeping of asynchronous tasks: submission under capacity limits,
//! status tracking, results, cancellation, listing and clean-up.
use vstd::prelude::*;

use crate::config::ApcoreSettings;
use crate::errors::{internal_module_error, module_error_message_of, AxumApcoreError};
use crate::text::{
    append_str, chars_eq_ignore_ascii_case, chars_of, decimal, decimal_string, eq_ignore_ascii_case,
    str_eq, string_of,
};

verus! {

#[verifier::external_type_specification]
#[verifier::external_body]
pub struct ExCancelToken(apcore::cancel::CancelToken);

/// A fresh, not yet cancelled token (`CancelToken::new`).
#[verifier::external_body]
fn new_cancel_token() -> apcore::cancel::CancelToken {
    apcore::cancel::CancelToken::new()
}

/// A second handle on the same token (`CancelToken::clone`); cancelling
/// either handle is seen through both. Nothing is stated of the result.
#[verifier::external_body]
fn share_cancel_token(t: &apcore::cancel::CancelToken) -> apcore::cancel::CancelToken {
    t.clone()
}

/// Signals cancellation on a token (`CancelToken::cancel`).
#[verifier::external_body]
fn signal_cancel(t: &apcore::cancel::CancelToken) {
    t.cancel();
}

/// A copy of a JSON value (`serde_json::Value::clone`), equal to it.
#[verifier::external_body]
pub(crate) fn clone_json(v: &serde_json::Value) -> (r: serde_json::Value)
    ensures
        r == *v,
{
    v.clone()
}

/// Earliest representable second (January 1, 262144 BCE, UTC).
pub open spec fn min_timestamp() -> int {
    -8334601315200
}

/// Latest representable second (December 31, 262142 CE, 23:59:59 UTC).
pub open spec fn max_timestamp() -> int {
    8210266876799
}

/// A point in time in UTC: whole seconds since the Unix epoch and the
/// nanoseconds within that second.
#[derive(Clone, Copy)]
pub struct UtcInstant {
    pub secs: i64,
    pub nanos: u32,
}

/// An instant within the representable range, with nanoseconds below one
/// second.
pub open spec fn valid_instant(t: UtcInstant) -> bool {
    min_timestamp() <= t.secs <= max_timestamp() && t.nanos < 1_000_000_000
}

/// `a` is strictly later than `b`.
pub open spec fn later(a: UtcInstant, b: UtcInstant) -> bool {
    a.secs > b.secs || (a.secs == b.secs && a.nanos > b.nanos)
}

/// The current time (`chrono::Utc::now`): an instant after the Unix epoch,
/// within the representable range. Which instant it is depends on the clock.
#[verifier::external_body]
fn utc_now() -> (t: UtcInstant)
    ensures
        valid_instant(t),
        t.secs >= 0,
{
    let now = chrono::Utc::now();
    UtcInstant { secs: now.timestamp(), nanos: now.timestamp_subsec_nanos() }
}

/// The RFC 3339 text of an instant, as `chrono` writes it.
pub uninterp spec fn rfc3339_text(secs: i64, nanos: u32) -> Seq<char>;

/// The RFC 3339 text of a valid instant
/// (`DateTime::from_timestamp` then `DateTime::to_rfc3339`).
#[verifier::external_body]
fn rfc3339(t: UtcInstant) -> (s: String)
    requires
        valid_instant(t),
    ensures
        s@ == rfc3339_text(t.secs, t.nanos),
{
    chrono::DateTime::from_timestamp(t.secs, t.nanos).unwrap().to_rfc3339()
}

/// Status of a task.
#[derive(Clone, Copy, Debug, PartialEq, Eq, Structural)]
pub enum TaskStatus {
    Pending,
    Running,
    Completed,
    Failed,
    Cancelled,
}

/// The name a status is shown under.
pub open spec fn status_name(s: TaskStatus) -> Seq<char> {
    match s {
        TaskStatus::Pending => "Pending"@,
        TaskStatus::Running => "Running"@,
        TaskStatus::Completed => "Completed"@,
        TaskStatus::Failed => "Failed"@,
        TaskStatus::Cancelled => "Cancelled"@,
    }
}

impl TaskStatus {
    /// The name the status is shown under ("Running", "Completed", ...).
    pub fn name(&self) -> (s: String)
        ensures
            s@ == status_name(*self),
    {
        match self {
            TaskStatus::Pending => string_of("Pending"),
            TaskStatus::Running => string_of("Running"),
            TaskStatus::Completed => string_of("Completed"),
            TaskStatus::Failed => string_of("Failed"),
            TaskStatus::Cancelled => string_of("Cancelled"),
        }
    }
}

/// One tracked task.
pub struct TaskEntry {
    pub task_id: String,
    pub status: TaskStatus,
    pub module_id: String,
    pub result: Option<serde_json::Value>,
    pub error: Option<String>,
    pub cancel_token: apcore::cancel::CancelToken,
    pub created_at: UtcInstant,
}

/// What list and status queries report of a task.
#[derive(Debug)]
pub struct TaskInfo {
    pub task_id: String,
    pub module_id: String,
    pub status: String,
    pub result: Option<serde_json::Value>,
    pub error: Option<String>,
    pub created_at: String,
}

/// `info` reports `e`.
pub open spec fn reports(info: TaskInfo, e: TaskEntry) -> bool {
    &&& info.task_id@ == e.task_id@
    &&& info.module_id@ == e.module_id@
    &&& info.status@ == status_name(e.status)
    &&& info.result == e.result
    &&& info.error == e.error
    &&& info.created_at@ == rfc3339_text(e.created_at.secs, e.created_at.nanos)
}

/// How many entries have status `st`.
pub open spec fn count_status(entries: Seq<TaskEntry>, st: TaskStatus) -> nat
    decreases entries.len(),
{
    if entries.len() == 0 {
        0
    } else {
        count_status(entries.drop_last(), st) + (if entries.last().status == st {
            1nat
        } else {
            0nat
        })
    }
}

/// No two entries share a task id.
pub open spec fn ids_unique(entries: Seq<TaskEntry>) -> bool {
    forall|i: int, j: int|
        0 <= i < entries.len() && 0 <= j < entries.len() && i != j ==> (#[trigger] entries[i]).task_id@
            != (#[trigger] entries[j]).task_id@
}

/// Where the task with id `id` stands, if it is tracked.
pub open spec fn find_task(entries: Seq<TaskEntry>, id: Seq<char>) -> Option<int> {
    if exists|i: int| 0 <= i < entries.len() && (#[trigger] entries[i]).task_id@ == id {
        Some(choose|i: int| 0 <= i < entries.len() && (#[trigger] entries[i]).task_id@ == id)
    } else {
        None
    }
}

/// The status of the task with id `id`, if it is tracked.
pub open spec fn status_of(entries: Seq<TaskEntry>, id: Seq<char>) -> Option<TaskStatus> {
    match find_task(entries, id) {
        Some(k) => Some(entries[k].status),
        None => None,
    }
}

/// The result of task `id` when it is tracked and completed.
pub open spec fn result_of(entries: Seq<TaskEntry>, id: Seq<char>) -> Option<serde_json::Value> {
    match find_task(entries, id) {
        Some(k) => if entries[k].status == TaskStatus::Completed {
            entries[k].result
        } else {
            None
        },
        None => None,
    }
}

/// `e` is a freshly submitted task `id` of module `module`.
pub open spec fn fresh_entry(e: TaskEntry, id: Seq<char>, module: Seq<char>) -> bool {
    &&& e.task_id@ == id
    &&& e.status == TaskStatus::Running
    &&& e.module_id@ == module
    &&& e.result is None
    &&& e.error is None
}

/// `after` is `before` with task `id` of module `module` submitted: an
/// existing task of that id is replaced in place, else the task is appended.
pub open spec fn submitted(
    before: Seq<TaskEntry>,
    after: Seq<TaskEntry>,
    id: Seq<char>,
    module: Seq<char>,
) -> bool {
    match find_task(before, id) {
        Some(k) => {
            &&& after.len() == before.len()
            &&& fresh_entry(after[k], id, module)
            &&& forall|i: int| 0 <= i < before.len() && i != k ==> after[i] == before[i]
        },
        None => {
            &&& after.len() == before.len() + 1
            &&& fresh_entry(after.last(), id, module)
            &&& forall|i: int| 0 <= i < before.len() ==> after[i] == before[i]
        },
    }
}

/// `after` is `before` with the entry at `k` given status `st`, result
/// `result` and error `error`; nothing else changes.
pub open spec fn restated(
    before: Seq<TaskEntry>,
    after: Seq<TaskEntry>,
    k: int,
    st: TaskStatus,
    result: Option<serde_json::Value>,
    error: Option<String>,
) -> bool {
    &&& after.len() == before.len()
    &&& after[k].status == st
    &&& after[k].result == result
    &&& after[k].error == error
    &&& after[k].task_id == before[k].task_id
    &&& after[k].module_id == before[k].module_id
    &&& after[k].created_at == before[k].created_at
    &&& forall|i: int| 0 <= i < before.len() && i != k ==> after[i] == before[i]
}


proof fn lemma_count_push(s: Seq<TaskEntry>, e: TaskEntry, st: TaskStatus)
    ensures
        count_status(s.push(e), st) == count_status(s, st) + (if e.status == st {
            1nat
        } else {
            0nat
        }),
{
    assert(s.push(e).drop_last() =~= s);
}

proof fn lemma_count_update(s: Seq<TaskEntry>, k: int, e: TaskEntry, st: TaskStatus)
    requires
        0 <= k < s.len(),
    ensures
        count_status(s.update(k, e), st) + (if s[k].status == st {
            1nat
        } else {
            0nat
        }) == count_status(s, st) + (if e.status == st {
            1nat
        } else {
            0nat
        }),
    decreases s.len(),
{
    if k == s.len() - 1 {
        assert(s.update(k, e).drop_last() =~= s.drop_last());
    } else {
        assert(s.update(k, e).drop_last() =~= s.drop_last().update(k, e));
        lemma_count_update(s.drop_last(), k, e, st);
    }
}

proof fn lemma_count_same_status(s: Seq<TaskEntry>, t: Seq<TaskEntry>, st: TaskStatus)
    requires
        s.len() == t.len(),
        forall|i: int| 0 <= i < s.len() ==> (#[trigger] s[i]).status == t[i].status,
    ensures
        count_status(s, st) == count_status(t, st),
    decreases s.len(),
{
    if s.len() > 0 {
        lemma_count_same_status(s.drop_last(), t.drop_last(), st);
    }
}

/// The sum of the counts of every status is the number of entries.
proof fn lemma_count_total(s: Seq<TaskEntry>)
    ensures
        count_status(s, TaskStatus::Pending) + count_status(s, TaskStatus::Running) + count_status(
            s,
            TaskStatus::Completed,
        ) + count_status(s, TaskStatus::Failed) + count_status(s, TaskStatus::Cancelled) == s.len(),
    decreases s.len(),
{
    if s.len() > 0 {
        lemma_count_total(s.drop_last());
    }
}

proof fn lemma_no_status_count_zero(s: Seq<TaskEntry>, st: TaskStatus)
    requires
        forall|i: int| 0 <= i < s.len() ==> (#[trigger] s[i]).status != st,
    ensures
        count_status(s, st) == 0,
    decreases s.len(),
{
    if s.len() > 0 {
        lemma_no_status_count_zero(s.drop_last(), st);
    }
}

proof fn lemma_find_task_at(s: Seq<TaskEntry>, id: Seq<char>, k: int)
    requires
        ids_unique(s),
        0 <= k < s.len(),
        s[k].task_id@ == id,
    ensures
        find_task(s, id) == Some(k),
{
    assert(s[k].task_id@ == id);
}

/// A task is listed under `filter` when there is no filter, or when the
/// filter names its status, compared without regard to ASCII case. This is
/// the same as comparing lower-cased text: apart from ASCII letters, only the
/// Kelvin sign lower-cases to a single ASCII letter, and no status name has a
/// `k`.
pub open spec fn listed_under(e: TaskEntry, filter: Option<Seq<char>>) -> bool {
    match filter {
        Some(f) => eq_ignore_ascii_case(f, status_name(e.status)),
        None => true,
    }
}

/// The entries listed under `filter`, in order.
pub open spec fn listed(entries: Seq<TaskEntry>, filter: Option<Seq<char>>) -> Seq<TaskEntry>
    decreases entries.len(),
{
    if entries.len() == 0 {
        Seq::empty()
    } else {
        let prev = listed(entries.drop_last(), filter);
        if listed_under(entries.last(), filter) {
            prev.push(entries.last())
        } else {
            prev
        }
    }
}

/// The number of seconds that a clean-up age stands for once it is read as
/// a signed 64-bit number (ages beyond `i64::MAX` wrap around).
pub open spec fn cleanup_seconds(max_age: u64) -> int {
    if max_age <= i64::MAX {
        max_age as int
    } else {
        max_age - 0x1_0000_0000_0000_0000
    }
}

/// A clean-up age whose seconds make a valid time span.
pub open spec fn cleanup_age_valid(max_age: u64) -> bool {
    -(i64::MAX / 1000) <= cleanup_seconds(max_age) <= i64::MAX / 1000
}

/// The cut-off second lies in the representable range.
pub open spec fn cutoff_in_range(now: UtcInstant, max_age: u64) -> bool {
    min_timestamp() <= now.secs - cleanup_seconds(max_age) <= max_timestamp()
}

/// The instant `max_age` seconds before `now`.
pub open spec fn cutoff_of(now: UtcInstant, max_age: u64) -> UtcInstant {
    UtcInstant { secs: (now.secs - cleanup_seconds(max_age)) as i64, nanos: now.nanos }
}

/// Clean-up keeps a task that is running or was created after the cut-off.
pub open spec fn survives(e: TaskEntry, cutoff: UtcInstant) -> bool {
    e.status == TaskStatus::Running || later(e.created_at, cutoff)
}

/// The entries that clean-up keeps, in order.
pub open spec fn survivors(entries: Seq<TaskEntry>, cutoff: UtcInstant) -> Seq<TaskEntry>
    decreases entries.len(),
{
    if entries.len() == 0 {
        Seq::empty()
    } else {
        let prev = survivors(entries.drop_last(), cutoff);
        if survives(entries.last(), cutoff) {
            prev.push(entries.last())
        } else {
            prev
        }
    }
}

proof fn lemma_survivors_props(entries: Seq<TaskEntry>, cutoff: UtcInstant)
    ensures
        survivors(entries, cutoff).len() <= entries.len(),
        forall|i: int| 0 <= i < survivors(entries, cutoff).len() ==> entries.contains(
            #[trigger] survivors(entries, cutoff)[i],
        ),
        count_status(survivors(entries, cutoff), TaskStatus::Running) == count_status(
            entries,
            TaskStatus::Running,
        ),
        ids_unique(entries) ==> ids_unique(survivors(entries, cutoff)),
    decreases entries.len(),
{
    if entries.len() > 0 {
        let prev = survivors(entries.drop_last(), cutoff);
        lemma_survivors_props(entries.drop_last(), cutoff);
        let e = entries.last();
        assert forall|i: int| 0 <= i < prev.len() implies entries.contains(#[trigger] prev[i]) by {
            let j = choose|j: int| 0 <= j < entries.drop_last().len() && entries.drop_last()[j] == prev[i];
            assert(entries[j] == prev[i]);
        }
        assert(entries[entries.len() - 1] == e);
        if survives(e, cutoff) {
            lemma_count_push(prev, e, TaskStatus::Running);
            if ids_unique(entries) {
                assert forall|i: int, j: int|
                    0 <= i < prev.push(e).len() && 0 <= j < prev.push(e).len() && i != j implies (#[trigger] prev.push(e)[i]).task_id@
                    != (#[trigger] prev.push(e)[j]).task_id@ by {
                    assert(ids_unique(entries.drop_last()));
                    if i == prev.len() as int {
                        let jj = choose|jj: int| 0 <= jj < entries.drop_last().len() && entries.drop_last()[jj] == prev[j];
                        assert(entries[jj] == prev[j]);
                    } else if j == prev.len() as int {
                        let ii = choose|ii: int| 0 <= ii < entries.drop_last().len() && entries.drop_last()[ii] == prev[i];
                        assert(entries[ii] == prev[i]);
                    }
                }
            }
        } else {
            assert(ids_unique(entries) ==> ids_unique(entries.drop_last()));
        }
    }
}

/// The view of an optional string slice.
pub open spec fn opt_view(s: Option<&str>) -> Option<Seq<char>> {
    match s {
        Some(x) => Some(x@),
        None => None,
    }
}

/// Tracks submitted tasks under a limit on the number of tasks and on the
/// number of running tasks.
pub struct TaskManager {
    tasks: Vec<TaskEntry>,
    max_concurrent: usize,
    max_tasks: usize,
}

impl TaskManager {
    /// The tracked tasks.
    pub closed spec fn entries(&self) -> Seq<TaskEntry> {
        self.tasks@
    }

    /// The limit on running tasks.
    pub closed spec fn concurrency_limit(&self) -> nat {
        self.max_concurrent as nat
    }

    /// The limit on tracked tasks.
    pub closed spec fn capacity(&self) -> nat {
        self.max_tasks as nat
    }

    /// What every manager keeps: task ids are unique, no task is pending,
    /// the tracked and running tasks stay within their limits, and every
    /// creation time is a valid instant.
    pub closed spec fn wf(&self) -> bool {
        &&& ids_unique(self.tasks@)
        &&& forall|i: int|
            0 <= i < self.tasks@.len() ==> (#[trigger] self.tasks@[i]).status != TaskStatus::Pending
        &&& forall|i: int| 0 <= i < self.tasks@.len() ==> valid_instant((#[trigger] self.tasks@[i]).created_at)
        &&& self.tasks@.len() <= self.max_tasks
        &&& count_status(self.tasks@, TaskStatus::Running) <= self.max_concurrent
    }

    /// A manager with no tasks and the limits of the settings.
    pub fn from_settings(settings: &ApcoreSettings) -> (m: Self)
        ensures
            m.wf(),
            m.entries().len() == 0,
            m.concurrency_limit() == settings.task_max_concurrent,
            m.capacity() == settings.task_max_tasks,
    {
        TaskManager {
            tasks: Vec::new(),
            max_concurrent: settings.task_max_concurrent,
            max_tasks: settings.task_max_tasks,
        }
    }

    fn position(&self, task_id: &str) -> (r: Option<usize>)
        requires
            ids_unique(self.tasks@),
        ensures
            match r {
                Some(k) => find_task(self.tasks@, task_id@) == Some(k as int) && k < self.tasks@.len(),
                None => find_task(self.tasks@, task_id@) is None,
            },
    {
        let mut i: usize = 0;
        while i < self.tasks.len()
            invariant
                i <= self.tasks@.len(),
                ids_unique(self.tasks@),
                forall|j: int| 0 <= j < i ==> (#[trigger] self.tasks@[j]).task_id@ != task_id@,
            decreases self.tasks.len() - i,
        {
            if str_eq(self.tasks[i].task_id.as_str(), task_id) {
                proof {
                    lemma_find_task_at(self.tasks@, task_id@, i as int);
                }
                return Some(i);
            }
            i = i + 1;
        }
        None
    }

    fn running_count(&self) -> (n: usize)
        ensures
            n == count_status(self.tasks@, TaskStatus::Running),
    {
        let mut n: usize = 0;
        let mut i: usize = 0;
        while i < self.tasks.len()
            invariant
                i <= self.tasks@.len(),
                n == count_status(self.tasks@.take(i as int), TaskStatus::Running),
                n <= i,
            decreases self.tasks.len() - i,
        {
            assert(self.tasks@.take(i + 1).drop_last() =~= self.tasks@.take(i as int));
            if self.tasks[i].status == TaskStatus::Running {
                n = n + 1;
            }
            i = i + 1;
        }
        assert(self.tasks@.take(self.tasks@.len() as int) =~= self.tasks@);
        n
    }

    /// Submits task `task_id` of module `module_id` as running, and hands
    /// back its id and a token that cancelling the task will signal. It is
    /// refused, with nothing changed, when the number of tracked tasks has
    /// reached its limit or the number of running tasks has reached theirs.
    pub fn submit(&mut self, task_id: String, module_id: String) -> (r: Result<
        (String, apcore::cancel::CancelToken),
        AxumApcoreError,
    >)
        requires
            old(self).wf(),
        ensures
            final(self).wf(),
            final(self).capacity() == old(self).capacity(),
            final(self).concurrency_limit() == old(self).concurrency_limit(),
            match r {
                Ok((id, _)) => {
                    &&& id@ == task_id@
                    &&& old(self).entries().len() < old(self).capacity()
                    &&& count_status(old(self).entries(), TaskStatus::Running) < old(
                        self,
                    ).concurrency_limit()
                    &&& submitted(old(self).entries(), final(self).entries(), task_id@, module_id@)
                },
                Err(e) => {
                    &&& (old(self).entries().len() >= old(self).capacity() || count_status(
                        old(self).entries(),
                        TaskStatus::Running,
                    ) >= old(self).concurrency_limit())
                    &&& final(self).entries() == old(self).entries()
                    &&& e matches AxumApcoreError::Execution(x) && module_error_message_of(x) == (if old(
                        self,
                    ).entries().len() >= old(self).capacity() {
                        "Maximum task limit reached ("@ + decimal(old(self).capacity()) + ")"@
                    } else {
                        "Maximum concurrent task limit reached ("@ + decimal(
                            old(self).concurrency_limit(),
                        ) + ")"@
                    })
                },
            },
    {
        if self.tasks.len() >= self.max_tasks {
            let mut msg = string_of("Maximum task limit reached (");
            append_str(&mut msg, decimal_string(self.max_tasks as u64).as_str());
            append_str(&mut msg, ")");
            return Err(AxumApcoreError::Execution(internal_module_error(msg)));
        }
        let active = self.running_count();
        if active >= self.max_concurrent {
            let mut msg = string_of("Maximum concurrent task limit reached (");
            append_str(&mut msg, decimal_string(self.max_concurrent as u64).as_str());
            append_str(&mut msg, ")");
            return Err(AxumApcoreError::Execution(internal_module_error(msg)));
        }
        let token = new_cancel_token();
        let handle = share_cancel_token(&token);
        let entry = TaskEntry {
            task_id: task_id.clone(),
            status: TaskStatus::Running,
            module_id,
            result: None,
            error: None,
            cancel_token: token,
            created_at: utc_now(),
        };
        let ghost before = self.tasks@;
        match self.position(task_id.as_str()) {
            Some(k) => {
                let ghost old_entry = self.tasks@[k as int];
                self.tasks.set(k, entry);
                proof {
                    lemma_count_update(before, k as int, entry, TaskStatus::Running);
                    assert(old_entry.task_id@ == task_id@);
                }
            },
            None => {
                self.tasks.push(entry);
                proof {
                    lemma_count_push(before, entry, TaskStatus::Running);
                }
            },
        }
        Ok((task_id, handle))
    }

    fn restate(
        &mut self,
        k: usize,
        st: TaskStatus,
        result: Option<serde_json::Value>,
        error: Option<String>,
    )
        requires
            k < old(self).tasks@.len(),
        ensures
            restated(old(self).tasks@, final(self).tasks@, k as int, st, result, error),
            final(self).max_tasks == old(self).max_tasks,
            final(self).max_concurrent == old(self).max_concurrent,
    {
        let mut e = self.tasks.remove(k);
        e.status = st;
        e.result = result;
        e.error = error;
        self.tasks.insert(k, e);
    }

    proof fn lemma_restate_keeps_wf(before: Self, after: Self, k: int, st: TaskStatus, result: Option<serde_json::Value>, error: Option<String>)
        requires
            before.wf(),
            0 <= k < before.tasks@.len(),
            st != TaskStatus::Pending,
            st != TaskStatus::Running,
            restated(before.tasks@, after.tasks@, k, st, result, error),
            after.max_tasks == before.max_tasks,
            after.max_concurrent == before.max_concurrent,
        ensures
            after.wf(),
    {
        let e = after.tasks@[k];
        assert(after.tasks@ =~= before.tasks@.update(k, e));
        lemma_count_update(before.tasks@, k, e, TaskStatus::Running);
        assert forall|i: int, j: int|
            0 <= i < after.tasks@.len() && 0 <= j < after.tasks@.len() && i != j implies (#[trigger] after.tasks@[i]).task_id@
            != (#[trigger] after.tasks@[j]).task_id@ by {
            assert(before.tasks@[i].task_id@ != before.tasks@[j].task_id@);
        }
        assert forall|i: int| 0 <= i < after.tasks@.len() implies valid_instant((#[trigger] after.tasks@[i]).created_at) by {
            assert(valid_instant(before.tasks@[i].created_at));
        }
    }

    /// The status of task `task_id`, if it is tracked.
    pub fn get_status(&self, task_id: &str) -> (r: Option<TaskStatus>)
        requires
            self.wf(),
        ensures
            r == status_of(self.entries(), task_id@),
    {
        match self.position(task_id) {
            Some(k) => Some(self.tasks[k].status),
            None => None,
        }
    }

    fn info_at(&self, k: usize) -> (info: TaskInfo)
        requires
            self.wf(),
            k < self.tasks@.len(),
        ensures
            reports(info, self.tasks@[k as int]),
    {
        let e = &self.tasks[k];
        assert(valid_instant(self.tasks@[k as int].created_at));
        TaskInfo {
            task_id: e.task_id.clone(),
            module_id: e.module_id.clone(),
            status: e.status.name(),
            result: match &e.result {
                Some(v) => Some(clone_json(v)),
                None => None,
            },
            error: e.error.clone(),
            created_at: rfc3339(e.created_at),
        }
    }

    /// Everything known of task `task_id`, if it is tracked.
    pub fn get_task_info(&self, task_id: &str) -> (r: Option<TaskInfo>)
        requires
            self.wf(),
        ensures
            match find_task(self.entries(), task_id@) {
                Some(k) => r is Some && reports(r->0, self.entries()[k]),
                None => r is None,
            },
    {
        match self.position(task_id) {
            Some(k) => Some(self.info_at(k)),
            None => None,
        }
    }

    /// The result of task `task_id` when it is tracked and completed.
    pub fn get_result(&self, task_id: &str) -> (r: Option<serde_json::Value>)
        requires
            self.wf(),
        ensures
            r == result_of(self.entries(), task_id@),
    {
        match self.position(task_id) {
            Some(k) => {
                if self.tasks[k].status == TaskStatus::Completed {
                    match &self.tasks[k].result {
                        Some(v) => Some(clone_json(v)),
                        None => None,
                    }
                } else {
                    None
                }
            },
            None => None,
        }
    }

    /// Marks task `task_id`, whatever its status, as completed with
    /// `result`; an unknown id changes nothing.
    pub fn complete(&mut self, task_id: &str, result: serde_json::Value)
        requires
            old(self).wf(),
        ensures
            final(self).wf(),
            final(self).capacity() == old(self).capacity(),
            final(self).concurrency_limit() == old(self).concurrency_limit(),
            match find_task(old(self).entries(), task_id@) {
                Some(k) => restated(
                    old(self).entries(),
                    final(self).entries(),
                    k,
                    TaskStatus::Completed,
                    Some(result),
                    old(self).entries()[k].error,
                ),
                None => final(self).entries() == old(self).entries(),
            },
    {
        if let Some(k) = self.position(task_id) {
            let ghost before = *self;
            let err = self.tasks[k].error.clone();
            self.restate(k, TaskStatus::Completed, Some(result), err);
            proof {
                Self::lemma_restate_keeps_wf(before, *self, k as int, TaskStatus::Completed, Some(result), err);
            }
        }
    }

    /// Marks task `task_id`, whatever its status, as failed with `error`;
    /// an unknown id changes nothing.
    pub fn fail(&mut self, task_id: &str, error: String)
        requires
            old(self).wf(),
        ensures
            final(self).wf(),
            final(self).capacity() == old(self).capacity(),
            final(self).concurrency_limit() == old(self).concurrency_limit(),
            match find_task(old(self).entries(), task_id@) {
                Some(k) => restated(
                    old(self).entries(),
                    final(self).entries(),
                    k,
                    TaskStatus::Failed,
                    old(self).entries()[k].result,
                    Some(error),
                ),
                None => final(self).entries() == old(self).entries(),
            },
    {
        if let Some(k) = self.position(task_id) {
            let ghost before = *self;
            let res = match &self.tasks[k].result {
                Some(v) => Some(clone_json(v)),
                None => None,
            };
            self.restate(k, TaskStatus::Failed, res, Some(error));
            proof {
                Self::lemma_restate_keeps_wf(before, *self, k as int, TaskStatus::Failed, res, Some(error));
            }
        }
    }

    /// Cancels task `task_id` when it is running: its token is signalled,
    /// its status becomes cancelled and the answer is true. Otherwise
    /// nothing changes and the answer is false.
    pub fn cancel(&mut self, task_id: &str) -> (r: bool)
        requires
            old(self).wf(),
        ensures
            final(self).wf(),
            final(self).capacity() == old(self).capacity(),
            final(self).concurrency_limit() == old(self).concurrency_limit(),
            r == (status_of(old(self).entries(), task_id@) == Some(TaskStatus::Running)),
            r ==> restated(
                old(self).entries(),
                final(self).entries(),
                find_task(old(self).entries(), task_id@)->0,
                TaskStatus::Cancelled,
                old(self).entries()[find_task(old(self).entries(), task_id@)->0].result,
                old(self).entries()[find_task(old(self).entries(), task_id@)->0].error,
            ),
            !r ==> final(self).entries() == old(self).entries(),
    {
        if let Some(k) = self.position(task_id) {
            if self.tasks[k].status == TaskStatus::Running {
                signal_cancel(&self.tasks[k].cancel_token);
                let ghost before = *self;
                let res = match &self.tasks[k].result {
                    Some(v) => Some(clone_json(v)),
                    None => None,
                };
                let err = self.tasks[k].error.clone();
                self.restate(k, TaskStatus::Cancelled, res, err);
                proof {
                    Self::lemma_restate_keeps_wf(before, *self, k as int, TaskStatus::Cancelled, res, err);
                }
                return true;
            }
        }
        false
    }

    /// The tasks listed under `status_filter` (all of them when it is
    /// `None`), each reported in full, in the order they are tracked.
    pub fn list_tasks(&self, status_filter: Option<&str>) -> (r: Vec<TaskInfo>)
        requires
            self.wf(),
        ensures
            r@.len() == listed(self.entries(), opt_view(status_filter)).len(),
            forall|i: int|
                0 <= i < r@.len() ==> reports(
                    #[trigger] r@[i],
                    listed(self.entries(), opt_view(status_filter))[i],
                ),
    {
        let filter_chars: Option<Vec<char>> = match status_filter {
            Some(f) => Some(chars_of(f)),
            None => None,
        };
        let mut r: Vec<TaskInfo> = Vec::new();
        let mut i: usize = 0;
        while i < self.tasks.len()
            invariant
                self.wf(),
                i <= self.tasks@.len(),
                match filter_chars {
                    Some(v) => opt_view(status_filter) == Some(v@),
                    None => opt_view(status_filter) is None,
                },
                r@.len() == listed(self.tasks@.take(i as int), opt_view(status_filter)).len(),
                forall|j: int|
                    0 <= j < r@.len() ==> reports(
                        #[trigger] r@[j],
                        listed(self.tasks@.take(i as int), opt_view(status_filter))[j],
                    ),
            decreases self.tasks.len() - i,
        {
            assert(self.tasks@.take(i + 1).drop_last() =~= self.tasks@.take(i as int));
            let name = self.tasks[i].status.name();
            let keep = match &filter_chars {
                Some(v) => chars_eq_ignore_ascii_case(v, name.as_str()),
                None => true,
            };
            if keep {
                let info = self.info_at(i);
                r.push(info);
            }
            i = i + 1;
        }
        assert(self.tasks@.take(self.tasks@.len() as int) =~= self.tasks@);
        r
    }

    /// Clean-up at time `now`: every task that is neither running nor
    /// created after the instant `max_age_secs` seconds before `now` is
    /// dropped; the answer is how many were.
    pub fn cleanup_at(&mut self, now: UtcInstant, max_age_secs: u64) -> (removed: usize)
        requires
            old(self).wf(),
            valid_instant(now),
            cleanup_age_valid(max_age_secs),
            cutoff_in_range(now, max_age_secs),
        ensures
            final(self).wf(),
            final(self).capacity() == old(self).capacity(),
            final(self).concurrency_limit() == old(self).concurrency_limit(),
            final(self).entries() == survivors(old(self).entries(), cutoff_of(now, max_age_secs)),
            removed == old(self).entries().len() - final(self).entries().len(),
    {
        let secs: i64 = if max_age_secs <= i64::MAX as u64 {
            max_age_secs as i64
        } else {
            let back: u64 = u64::MAX - max_age_secs + 1;
            -(back as i64)
        };
        assert(secs == cleanup_seconds(max_age_secs));
        let cutoff = UtcInstant { secs: now.secs - secs, nanos: now.nanos };
        let ghost c = cutoff_of(now, max_age_secs);
        assert(cutoff == c);
        let before_len = self.tasks.len();
        let ghost before = *self;
        let mut pending: Vec<TaskEntry> = Vec::new();
        std::mem::swap(&mut pending, &mut self.tasks);
        let mut kept: Vec<TaskEntry> = Vec::new();
        let mut i: usize = 0;
        let n = pending.len();
        while pending.len() > 0
            invariant
                i + pending@.len() == n,
                n == before.tasks@.len(),
                pending@ == before.tasks@.skip(i as int),
                kept@ == survivors(before.tasks@.take(i as int), c),
                cutoff == c,
            decreases pending@.len(),
        {
            let e = pending.remove(0);
            assert(before.tasks@.take(i + 1).drop_last() =~= before.tasks@.take(i as int));
            assert(e == before.tasks@[i as int]);
            assert(before.tasks@.skip(i + 1) =~= before.tasks@.skip(i as int).remove(0));
            let later_than = e.created_at.secs > cutoff.secs || (e.created_at.secs == cutoff.secs
                && e.created_at.nanos > cutoff.nanos);
            if e.status == TaskStatus::Running || later_than {
                kept.push(e);
            }
            i = i + 1;
        }
        assert(before.tasks@.take(n as int) =~= before.tasks@);
        self.tasks = kept;
        proof {
            lemma_survivors_props(before.tasks@, c);
            assert forall|k: int| 0 <= k < self.tasks@.len() implies (#[trigger] self.tasks@[k]).status
                != TaskStatus::Pending && valid_instant(self.tasks@[k].created_at) by {
                assert(before.tasks@.contains(self.tasks@[k]));
            }
        }
        before_len - self.tasks.len()
    }

    /// Clean-up at the current time. Whatever the clock gave, the result is
    /// the clean-up at some valid instant not before 1970, or, when the
    /// cut-off would fall outside the representable range, nothing is
    /// dropped.
    pub fn cleanup(&mut self, max_age_secs: u64) -> (removed: usize)
        requires
            old(self).wf(),
            cleanup_age_valid(max_age_secs),
        ensures
            final(self).wf(),
            final(self).capacity() == old(self).capacity(),
            final(self).concurrency_limit() == old(self).concurrency_limit(),
            removed == old(self).entries().len() - final(self).entries().len(),
            exists|now: UtcInstant|
                valid_instant(now) && now.secs >= 0 && (if cutoff_in_range(now, max_age_secs) {
                    final(self).entries() == survivors(old(self).entries(), cutoff_of(now, max_age_secs))
                } else {
                    final(self).entries() == old(self).entries()
                }),
    {
        let now = utc_now();
        let secs: i64 = if max_age_secs <= i64::MAX as u64 {
            max_age_secs as i64
        } else {
            let back: u64 = u64::MAX - max_age_secs + 1;
            -(back as i64)
        };
        assert(secs == cleanup_seconds(max_age_secs));
        let c: i128 = (now.secs as i128) - (secs as i128);
        if -8334601315200i128 <= c && c <= 8210266876799i128 {
            let removed = self.cleanup_at(now, max_age_secs);
            assert(valid_instant(now));
            removed
        } else {
            assert(!cutoff_in_range(now, max_age_secs));
            0
        }
    }

    /// How many tasks are running, completed, failed and cancelled.
    pub fn count(&self) -> (r: (usize, usize, usize, usize))
        requires
            self.wf(),
        ensures
            r.0 == count_status(self.entries(), TaskStatus::Running),
            r.1 == count_status(self.entries(), TaskStatus::Completed),
            r.2 == count_status(self.entries(), TaskStatus::Failed),
            r.3 == count_status(self.entries(), TaskStatus::Cancelled),
    {
        let mut running: usize = 0;
        let mut completed: usize = 0;
        let mut failed: usize = 0;
        let mut cancelled: usize = 0;
        let mut i: usize = 0;
        while i < self.tasks.len()
            invariant
                i <= self.tasks@.len(),
                running == count_status(self.tasks@.take(i as int), TaskStatus::Running),
                completed == count_status(self.tasks@.take(i as int), TaskStatus::Completed),
                failed == count_status(self.tasks@.take(i as int), TaskStatus::Failed),
                cancelled == count_status(self.tasks@.take(i as int), TaskStatus::Cancelled),
                running + completed + failed + cancelled <= i,
            decreases self.tasks.len() - i,
        {
            assert(self.tasks@.take(i + 1).drop_last() =~= self.tasks@.take(i as int));
            match self.tasks[i].status {
                TaskStatus::Running => running = running + 1,
                TaskStatus::Completed => completed = completed + 1,
                TaskStatus::Failed => failed = failed + 1,
                TaskStatus::Cancelled => cancelled = cancelled + 1,
                TaskStatus::Pending => {},
            }
            i = i + 1;
        }
        assert(self.tasks@.take(self.tasks@.len() as int) =~= self.tasks@);
        (running, completed, failed, cancelled)
    }
}


/// A submitted task is running, and every other task keeps its status.
pub proof fn law_submitted_task_runs(
    before: TaskManager,
    after: TaskManager,
    id: Seq<char>,
    module: Seq<char>,
    other: Seq<char>,
)
    requires
        before.wf(),
        after.wf(),
        submitted(before.entries(), after.entries(), id, module),
        other != id,
    ensures
        status_of(after.entries(), id) == Some(TaskStatus::Running),
        status_of(after.entries(), other) == status_of(before.entries(), other),
{
    let b = before.entries();
    let a = after.entries();
    let k = match find_task(b, id) {
        Some(k) => k,
        None => b.len() as int,
    };
    assert(a[k].task_id@ == id);
    lemma_find_task_at(a, id, k);
    match find_task(b, other) {
        Some(j) => {
            assert(b[j].task_id@ == other);
            assert(j != k);
            assert(a[j] == b[j]);
            lemma_find_task_at(a, other, j);
        },
        None => {
            assert forall|i: int| 0 <= i < a.len() implies (#[trigger] a[i]).task_id@ != other by {
                if i != k {
                    assert(a[i] == b[i]);
                }
            }
        },
    }
}

/// Restating one task (completing, failing or cancelling it) gives it the
/// new status and leaves every other task's status as it was.
pub proof fn law_restated_task_status(
    before: TaskManager,
    after: TaskManager,
    id: Seq<char>,
    st: TaskStatus,
    result: Option<serde_json::Value>,
    error: Option<String>,
    other: Seq<char>,
)
    requires
        before.wf(),
        after.wf(),
        find_task(before.entries(), id) is Some,
        restated(before.entries(), after.entries(), find_task(before.entries(), id)->0, st, result, error),
        other != id,
    ensures
        status_of(after.entries(), id) == Some(st),
        status_of(after.entries(), other) == status_of(before.entries(), other),
{
    let b = before.entries();
    let a = after.entries();
    let k = find_task(b, id)->0;
    assert(b[k].task_id@ == id);
    lemma_find_task_at(a, id, k);
    match find_task(b, other) {
        Some(j) => {
            assert(b[j].task_id@ == other);
            assert(a[j] == b[j]);
            lemma_find_task_at(a, other, j);
        },
        None => {
            assert forall|i: int| 0 <= i < a.len() implies (#[trigger] a[i]).task_id@ != other by {
                if i != k {
                    assert(a[i] == b[i]);
                }
            }
        },
    }
}

/// What a task was completed with is its result.
pub proof fn law_completed_result(
    before: TaskManager,
    after: TaskManager,
    id: Seq<char>,
    value: serde_json::Value,
    error: Option<String>,
)
    requires
        before.wf(),
        after.wf(),
        find_task(before.entries(), id) is Some,
        restated(
            before.entries(),
            after.entries(),
            find_task(before.entries(), id)->0,
            TaskStatus::Completed,
            Some(value),
            error,
        ),
    ensures
        result_of(after.entries(), id) == Some(value),
{
    let k = find_task(before.entries(), id)->0;
    assert(before.entries()[k].task_id@ == id);
    lemma_find_task_at(after.entries(), id, k);
}

/// A task that is not completed has no result.
pub proof fn law_no_result_unless_completed(m: TaskManager, id: Seq<char>)
    requires
        m.wf(),
        status_of(m.entries(), id) != Some(TaskStatus::Completed),
    ensures
        result_of(m.entries(), id) is None,
{
}

/// Clean-up with cut-off `cutoff` keeps exactly the tasks that are running
/// or were created strictly after the cut-off: every task left is one of
/// those, and each of those is left. A completed, failed or cancelled task
/// created at or before the cut-off is removed.
pub proof fn law_cleanup_keeps_exactly_running_or_recent(entries: Seq<TaskEntry>, cutoff: UtcInstant)
    ensures
        forall|i: int|
            0 <= i < survivors(entries, cutoff).len() ==> {
                let e = #[trigger] survivors(entries, cutoff)[i];
                later(e.created_at, cutoff) || e.status == TaskStatus::Running
            },
        forall|i: int|
            0 <= i < entries.len() && ((#[trigger] entries[i]).status == TaskStatus::Running || later(
                entries[i].created_at,
                cutoff,
            )) ==> survivors(entries, cutoff).contains(entries[i]),
        forall|i: int|
            0 <= i < entries.len() && (#[trigger] entries[i]).status != TaskStatus::Running && !later(
                entries[i].created_at,
                cutoff,
            ) ==> !survivors(entries, cutoff).contains(entries[i]),
    decreases entries.len(),
{
    if entries.len() > 0 {
        let prev = survivors(entries.drop_last(), cutoff);
        let all = survivors(entries, cutoff);
        law_cleanup_keeps_exactly_running_or_recent(entries.drop_last(), cutoff);
        assert forall|i: int| 0 <= i < all.len() implies {
            let e = #[trigger] all[i];
            later(e.created_at, cutoff) || e.status == TaskStatus::Running
        } by {
            if i < prev.len() {
                assert(all[i] == prev[i]);
            }
        }
        assert forall|i: int|
            0 <= i < entries.len() && ((#[trigger] entries[i]).status == TaskStatus::Running || later(
                entries[i].created_at,
                cutoff,
            )) implies all.contains(entries[i]) by {
            if i < entries.len() - 1 {
                assert(entries.drop_last()[i] == entries[i]);
                let k = choose|k: int| 0 <= k < prev.len() && prev[k] == entries[i];
                assert(all[k] == prev[k]);
            } else {
                assert(all[all.len() - 1] == entries.last());
            }
        }
        assert forall|i: int|
            0 <= i < entries.len() && (#[trigger] entries[i]).status != TaskStatus::Running && !later(
                entries[i].created_at,
                cutoff,
            ) implies !all.contains(entries[i]) by {
            if all.contains(entries[i]) {
                let k = choose|k: int| 0 <= k < all.len() && all[k] == entries[i];
                assert(later(all[k].created_at, cutoff) || all[k].status == TaskStatus::Running);
            }
        }
    }
}

/// Every tracked task is running, completed, failed or cancelled: the four
/// counts add up to the number of tasks.
pub proof fn law_counts_cover_all_tasks(m: TaskManager)
    requires
        m.wf(),
    ensures
        count_status(m.entries(), TaskStatus::Running) + count_status(
            m.entries(),
            TaskStatus::Completed,
        ) + count_status(m.entries(), TaskStatus::Failed) + count_status(
            m.entries(),
            TaskStatus::Cancelled,
        ) == m.entries().len(),
{
    lemma_count_total(m.entries());
    lemma_no_status_count_zero(m.entries(), TaskStatus::Pending);
}

/// The number of tasks never exceeds the task limit, nor the number of
/// running tasks the concurrency limit.
pub proof fn law_limits_hold(m: TaskManager)
    requires
        m.wf(),
    ensures
        m.entries().len() <= m.capacity(),
        count_status(m.entries(), TaskStatus::Running) <= m.concurrency_limit(),
{
}

/// Clean-up never drops a running task, and drops only what it does not
/// keep.
pub proof fn law_cleanup_keeps_running(entries: Seq<TaskEntry>, cutoff: UtcInstant)
    ensures
        forall|i: int|
            0 <= i < entries.len() && (#[trigger] entries[i]).status == TaskStatus::Running
                ==> survivors(entries, cutoff).contains(entries[i]),
        forall|i: int|
            0 <= i < survivors(entries, cutoff).len() ==> survives(
                #[trigger] survivors(entries, cutoff)[i],
                cutoff,
            ),
    decreases entries.len(),
{
    if entries.len() > 0 {
        let prev = survivors(entries.drop_last(), cutoff);
        law_cleanup_keeps_running(entries.drop_last(), cutoff);
        assert forall|i: int|
            0 <= i < entries.len() && (#[trigger] entries[i]).status == TaskStatus::Running
                implies survivors(entries, cutoff).contains(entries[i]) by {
            if i < entries.len() - 1 {
                assert(entries.drop_last()[i] == entries[i]);
                let j = choose|j: int| 0 <= j < prev.len() && prev[j] == entries[i];
                assert(survivors(entries, cutoff)[j] == entries[i]);
            } else {
                assert(survivors(entries, cutoff).last() == entries[i]);
            }
        }
    }
}

/// Without a filter every task is listed, in order.
pub proof fn law_unfiltered_lists_all(entries: Seq<TaskEntry>)
    ensures
        listed(entries, None) == entries,
    decreases entries.len(),
{
    if entries.len() > 0 {
        law_unfiltered_lists_all(entries.drop_last());
        assert(entries.drop_last().push(entries.last()) =~= entries);
    }
}

} // verus!
