//! The export job tracker.
//!
//! A process-wide map from job identity to job state, held here as an
//! association list with unique keys. Submitting is gated on the admin and
//! inspector roles; a denied submission leaves the tracker untouched.
//! Polling never changes the tracker. The background pipeline owns its job
//! and moves it through processing to done or error; every mutation leaves
//! all other jobs exactly as they were. The caller wraps the tracker in its
//! lock and supplies job identities and clock readings.

use vstd::prelude::*;

use crate::ids::{Oid, TaskId};
use crate::models::exports::{ExportActivityTimesOptions, Task, TaskStatus};
use crate::models::groups::{contains_permission, GroupPermission};
use crate::models::response::{create_error, ErrorResponse, ResponseStatus};
use crate::utils::jwt::UserData;

verus! {

/// The position at or after `i` holding `id`, or -1.
pub open spec fn spec_task_index_from(ts: Seq<(TaskId, Task)>, i: int, id: TaskId) -> int
    decreases ts.len() - i,
{
    if i < 0 || i >= ts.len() {
        -1
    } else if ts[i].0 == id {
        i
    } else {
        spec_task_index_from(ts, i + 1, id)
    }
}

/// The position holding `id`, or -1.
pub open spec fn spec_task_index(ts: Seq<(TaskId, Task)>, id: TaskId) -> int {
    spec_task_index_from(ts, 0, id)
}

/// The job state stored under `id`, if any.
pub open spec fn spec_find_task(ts: Seq<(TaskId, Task)>, id: TaskId) -> Option<Task> {
    let idx = spec_task_index(ts, id);
    if idx >= 0 {
        Some(ts[idx].1)
    } else {
        None
    }
}

/// Well-formedness of the tracker: every job identity occurs at most once.
pub open spec fn spec_tracker_wf(ts: Seq<(TaskId, Task)>) -> bool {
    forall|i: int, j: int| 0 <= i < j < ts.len() ==> ts[i].0 != ts[j].0
}

/// A found position really holds the identity, and lies at or after the
/// start of the search.
proof fn lemma_index_valid(ts: Seq<(TaskId, Task)>, i: int, id: TaskId)
    ensures
        spec_task_index_from(ts, i, id) == -1 || (i <= spec_task_index_from(ts, i, id) < ts.len()
            && ts[spec_task_index_from(ts, i, id)].0 == id),
    decreases ts.len() - i,
{
    if 0 <= i < ts.len() && ts[i].0 != id {
        lemma_index_valid(ts, i + 1, id);
    }
}

/// A search that finds nothing rules the identity out everywhere after the
/// start.
proof fn lemma_index_none(ts: Seq<(TaskId, Task)>, i: int, id: TaskId)
    requires
        0 <= i,
        spec_task_index_from(ts, i, id) == -1,
    ensures
        forall|k: int| i <= k < ts.len() ==> ts[k].0 != id,
    decreases ts.len() - i,
{
    if 0 <= i < ts.len() && ts[i].0 != id {
        lemma_index_none(ts, i + 1, id);
    }
}

/// Two lists with the same keys index every identity at the same position.
proof fn lemma_index_same_keys(a: Seq<(TaskId, Task)>, b: Seq<(TaskId, Task)>, i: int, id: TaskId)
    requires
        a.len() == b.len(),
        forall|k: int| 0 <= k < a.len() ==> a[k].0 == b[k].0,
    ensures
        spec_task_index_from(a, i, id) == spec_task_index_from(b, i, id),
    decreases a.len() - i,
{
    if 0 <= i < a.len() && a[i].0 != id {
        lemma_index_same_keys(a, b, i + 1, id);
    }
}

/// Appending an entry leaves every other identity's position alone, and
/// gives a fresh identity the appended position.
proof fn lemma_index_push(a: Seq<(TaskId, Task)>, x: (TaskId, Task), i: int, id: TaskId)
    requires
        0 <= i <= a.len(),
    ensures
        spec_task_index_from(a, i, id) >= 0 ==> spec_task_index_from(a.push(x), i, id)
            == spec_task_index_from(a, i, id),
        spec_task_index_from(a, i, id) == -1 && x.0 == id ==> spec_task_index_from(
            a.push(x),
            i,
            id,
        ) == a.len(),
        spec_task_index_from(a, i, id) == -1 && x.0 != id ==> spec_task_index_from(
            a.push(x),
            i,
            id,
        ) == -1,
    decreases a.len() - i,
{
    lemma_index_valid(a, i, id);
    if i < a.len() {
        if a[i].0 != id {
            lemma_index_push(a, x, i + 1, id);
        }
    } else {
        assert(a.push(x)[i] == x);
        assert(spec_task_index_from(a.push(x), i + 1, id) == -1);
    }
}

/// The stored state of a job created now by `user_id` with `options`:
/// pending, no result, zero percent.
pub open spec fn spec_new_task(user_id: Oid, options: ExportActivityTimesOptions, now: u64) -> Task {
    Task {
        time: now,
        actioner: user_id,
        options,
        status: TaskStatus::Pending,
        result: None,
        percent: Some(0),
    }
}

/// Builds the stored state of a freshly submitted job.
pub fn create_task(user_id: Oid, options: &ExportActivityTimesOptions, now: u64) -> (r: Task)
    ensures
        r == spec_new_task(user_id, *options, now),
{
    Task {
        time: now,
        actioner: user_id,
        options: *options,
        status: TaskStatus::Pending,
        result: None,
        percent: Some(0),
    }
}

/// The in-memory tracker of export jobs.
pub struct ExportTracker {
    pub tasks: Vec<(TaskId, Task)>,
}

impl ExportTracker {
    /// An empty tracker.
    pub fn new() -> (r: ExportTracker)
        ensures
            r.tasks@.len() == 0,
            spec_tracker_wf(r.tasks@),
    {
        ExportTracker { tasks: Vec::new() }
    }

    /// The position of `id`'s entry, if there is one.
    fn find_index(&self, id: TaskId) -> (r: Option<usize>)
        ensures
            match r {
                Some(i) => spec_task_index(self.tasks@, id) == i && i < self.tasks@.len()
                    && self.tasks@[i as int].0 == id,
                None => spec_task_index(self.tasks@, id) == -1,
            },
    {
        let mut i: usize = 0;
        while i < self.tasks.len()
            invariant
                i <= self.tasks@.len(),
                spec_task_index(self.tasks@, id) == spec_task_index_from(
                    self.tasks@,
                    i as int,
                    id,
                ),
            decreases self.tasks@.len() - i,
        {
            if self.tasks[i].0 == id {
                return Some(i);
            }
            i += 1;
        }
        None
    }

    /// Submits an export job. Forbidden — with the tracker left exactly as
    /// it was — unless the requester is an admin or an inspector. On
    /// success the job is stored under `task_id` as freshly created,
    /// replacing a previous job under the same identity and touching no
    /// other entry, and the job identity is answered.
    pub fn export_activity_times(
        &mut self,
        user: &UserData,
        options: &ExportActivityTimesOptions,
        task_id: TaskId,
        now: u64,
    ) -> (r: Result<TaskId, ErrorResponse>)
        requires
            spec_tracker_wf(old(self).tasks@),
        ensures
            !(user.perms@.contains(GroupPermission::Admin) || user.perms@.contains(
                GroupPermission::Inspector,
            )) ==> (r matches Err(e) && e.code == 403 && e.status == ResponseStatus::Error
                && e.message@ == "Permission denied"@ && final(self).tasks@ == old(self).tasks@),
            (user.perms@.contains(GroupPermission::Admin) || user.perms@.contains(
                GroupPermission::Inspector,
            )) ==> {
                &&& r == Ok::<TaskId, ErrorResponse>(task_id)
                &&& spec_tracker_wf(final(self).tasks@)
                &&& spec_find_task(final(self).tasks@, task_id) == Some(
                    spec_new_task(user.id, *options, now),
                )
                &&& (forall|other: TaskId|
                    other != task_id ==> spec_find_task(final(self).tasks@, other)
                        == spec_find_task(old(self).tasks@, other))
            },
    {
        if !(contains_permission(&user.perms, GroupPermission::Admin) || contains_permission(
            &user.perms,
            GroupPermission::Inspector,
        )) {
            return Err(create_error(403, "Permission denied".to_string()));
        }
        let task = create_task(user.id, options, now);
        let ghost ts0 = self.tasks@;
        match self.find_index(task_id) {
            Some(i) => {
                self.tasks.remove(i);
                self.tasks.insert(i, (task_id, task));
                proof {
                    let ts1 = self.tasks@;
                    assert(ts1 =~= ts0.update(i as int, (task_id, task)));
                    assert(forall|k: int| 0 <= k < ts0.len() ==> ts0[k].0 == ts1[k].0);
                    lemma_index_same_keys(ts0, ts1, 0, task_id);
                    assert(spec_find_task(ts1, task_id) == Some(task));
                    assert forall|other: TaskId| other != task_id implies spec_find_task(
                        ts1,
                        other,
                    ) == spec_find_task(ts0, other) by {
                        lemma_index_same_keys(ts0, ts1, 0, other);
                        lemma_index_valid(ts1, 0, other);
                    }
                }
            },
            None => {
                proof {
                    lemma_index_none(ts0, 0, task_id);
                }
                self.tasks.push((task_id, task));
                proof {
                    let ts1 = self.tasks@;
                    lemma_index_push(ts0, (task_id, task), 0, task_id);
                    assert(spec_find_task(ts1, task_id) == Some(task));
                    assert forall|other: TaskId| other != task_id implies spec_find_task(
                        ts1,
                        other,
                    ) == spec_find_task(ts0, other) by {
                        lemma_index_push(ts0, (task_id, task), 0, other);
                        lemma_index_valid(ts0, 0, other);
                    }
                    assert(spec_tracker_wf(ts1));
                }
            },
        }
        Ok(task_id)
    }

    /// Reads one job's state: the stored snapshot, or not-found. Polling
    /// borrows the tracker immutably and so never changes it; the answer
    /// is a function of the tracker's state and the identity, so repeated
    /// polls of an unchanged tracker answer alike.
    pub fn query_export_status(&self, task_id: TaskId) -> (r: Result<&Task, ErrorResponse>)
        ensures
            match spec_find_task(self.tasks@, task_id) {
                Some(t) => r matches Ok(rt) && *rt == t,
                None => r matches Err(e) && e.code == 404 && e.status == ResponseStatus::Error
                    && e.message@ == "Task not found"@,
            },
    {
        match self.find_index(task_id) {
            Some(i) => Ok(&self.tasks[i].1),
            None => Err(create_error(404, "Task not found".to_string())),
        }
    }

    /// Replaces `task_id`'s stored state with `task`, touching nothing
    /// else; answers whether the job existed.
    fn replace_task(&mut self, task_id: TaskId, task: Task) -> (r: bool)
        requires
            spec_tracker_wf(old(self).tasks@),
        ensures
            spec_tracker_wf(final(self).tasks@),
            spec_find_task(old(self).tasks@, task_id) is None ==> !r && final(self).tasks@ == old(
                self,
            ).tasks@,
            spec_find_task(old(self).tasks@, task_id) is Some ==> r && spec_find_task(
                final(self).tasks@,
                task_id,
            ) == Some(task),
            forall|other: TaskId|
                other != task_id ==> spec_find_task(final(self).tasks@, other) == spec_find_task(
                    old(self).tasks@,
                    other,
                ),
    {
        let ghost ts0 = self.tasks@;
        match self.find_index(task_id) {
            Some(i) => {
                self.tasks.remove(i);
                self.tasks.insert(i, (task_id, task));
                proof {
                    let ts1 = self.tasks@;
                    assert(ts1 =~= ts0.update(i as int, (task_id, task)));
                    assert(forall|k: int| 0 <= k < ts0.len() ==> ts0[k].0 == ts1[k].0);
                    lemma_index_same_keys(ts0, ts1, 0, task_id);
                    assert forall|other: TaskId| other != task_id implies spec_find_task(
                        ts1,
                        other,
                    ) == spec_find_task(ts0, other) by {
                        lemma_index_same_keys(ts0, ts1, 0, other);
                        lemma_index_valid(ts1, 0, other);
                    }
                }
                true
            },
            None => false,
        }
    }

    /// Marks a job as being processed; its other fields are kept. Answers
    /// whether the job existed, and changes nothing when it did not.
    pub fn set_processing(&mut self, task_id: TaskId) -> (r: bool)
        requires
            spec_tracker_wf(old(self).tasks@),
        ensures
            spec_tracker_wf(final(self).tasks@),
            spec_find_task(old(self).tasks@, task_id) is None ==> !r && final(self).tasks@ == old(
                self,
            ).tasks@,
            spec_find_task(old(self).tasks@, task_id) matches Some(t) ==> r && spec_find_task(
                final(self).tasks@,
                task_id,
            ) == Some(Task { status: TaskStatus::Processing, ..t }),
            forall|other: TaskId|
                other != task_id ==> spec_find_task(final(self).tasks@, other) == spec_find_task(
                    old(self).tasks@,
                    other,
                ),
    {
        let updated = match self.find_index(task_id) {
            Some(i) => {
                let t = &self.tasks[i].1;
                Task {
                    time: t.time,
                    actioner: t.actioner,
                    options: t.options,
                    status: TaskStatus::Processing,
                    result: clone_opt_string(&t.result),
                    percent: t.percent,
                }
            },
            None => {
                return false;
            },
        };
        self.replace_task(task_id, updated)
    }

    /// Marks a job as done with its result file path; its other fields are
    /// kept. Answers whether the job existed, and changes nothing when it
    /// did not.
    pub fn complete_task(&mut self, task_id: TaskId, result_path: String) -> (r: bool)
        requires
            spec_tracker_wf(old(self).tasks@),
        ensures
            spec_tracker_wf(final(self).tasks@),
            spec_find_task(old(self).tasks@, task_id) is None ==> !r && final(self).tasks@ == old(
                self,
            ).tasks@,
            spec_find_task(old(self).tasks@, task_id) matches Some(t) ==> r && spec_find_task(
                final(self).tasks@,
                task_id,
            ) == Some(Task { status: TaskStatus::Done, result: Some(result_path), ..t }),
            forall|other: TaskId|
                other != task_id ==> spec_find_task(final(self).tasks@, other) == spec_find_task(
                    old(self).tasks@,
                    other,
                ),
    {
        let updated = match self.find_index(task_id) {
            Some(i) => {
                let t = &self.tasks[i].1;
                Task {
                    time: t.time,
                    actioner: t.actioner,
                    options: t.options,
                    status: TaskStatus::Done,
                    result: Some(result_path),
                    percent: t.percent,
                }
            },
            None => {
                return false;
            },
        };
        self.replace_task(task_id, updated)
    }

    /// Marks a job as failed, dropping any result; its other fields are
    /// kept. Answers whether the job existed, and changes nothing when it
    /// did not.
    pub fn fail_task(&mut self, task_id: TaskId) -> (r: bool)
        requires
            spec_tracker_wf(old(self).tasks@),
        ensures
            spec_tracker_wf(final(self).tasks@),
            spec_find_task(old(self).tasks@, task_id) is None ==> !r && final(self).tasks@ == old(
                self,
            ).tasks@,
            spec_find_task(old(self).tasks@, task_id) matches Some(t) ==> r && spec_find_task(
                final(self).tasks@,
                task_id,
            ) == Some(Task { status: TaskStatus::Error, result: None, ..t }),
            forall|other: TaskId|
                other != task_id ==> spec_find_task(final(self).tasks@, other) == spec_find_task(
                    old(self).tasks@,
                    other,
                ),
    {
        let updated = match self.find_index(task_id) {
            Some(i) => {
                let t = &self.tasks[i].1;
                Task {
                    time: t.time,
                    actioner: t.actioner,
                    options: t.options,
                    status: TaskStatus::Error,
                    result: None,
                    percent: t.percent,
                }
            },
            None => {
                return false;
            },
        };
        self.replace_task(task_id, updated)
    }
}

/// Copies an optional text field.
fn clone_opt_string(s: &Option<String>) -> (r: Option<String>)
    ensures
        r == *s,
{
    match s {
        Some(s) => Some(s.clone()),
        None => None,
    }
}

} // verus!
