//! Background tasks: long-running agent runs that are submitted, executed
//! later and survive restarts.
//!
//! [`TaskStore`] is the in-memory index of the tasks and their lifecycle
//! (pending → running → completed / failed, or cancelled); the application
//! persists each task as JSON after every change and runs the agent loop.

use vstd::prelude::*;
use vstd::seq_lib::{to_multiset_build, to_multiset_insert};
use crate::clock::now_rfc3339;
use crate::error::{error_text, RavenClawsError};
use crate::text::{chars_of, push_str, str_eq, string_from_chars};

verus! {

// ── Status ─────────────────────────────────────────────────────────────────

/// Status of a background task.
#[derive(Debug, Clone, Copy, PartialEq, Eq, Structural)]
pub enum TaskStatus {
    /// Submitted, not started.
    Pending,
    /// Running.
    Running,
    /// Finished with a result.
    Completed,
    /// Finished with an error.
    Failed,
    /// Cancelled by the user.
    Cancelled,
}

/// The lowercase name of a status.
pub open spec fn status_name(s: TaskStatus) -> Seq<char> {
    match s {
        TaskStatus::Pending => "pending"@,
        TaskStatus::Running => "running"@,
        TaskStatus::Completed => "completed"@,
        TaskStatus::Failed => "failed"@,
        TaskStatus::Cancelled => "cancelled"@,
    }
}

impl TaskStatus {
    /// The lowercase name of the status.
    pub fn name(&self) -> (s: &'static str)
        ensures
            s@ == status_name(*self),
    {
        match self {
            TaskStatus::Pending => "pending",
            TaskStatus::Running => "running",
            TaskStatus::Completed => "completed",
            TaskStatus::Failed => "failed",
            TaskStatus::Cancelled => "cancelled",
        }
    }
}

/// Whether a task in this status has still to run (pending or running).
pub open spec fn incomplete(s: TaskStatus) -> bool {
    s == TaskStatus::Pending || s == TaskStatus::Running
}

// ── Tasks ──────────────────────────────────────────────────────────────────

/// One background task.
#[derive(Debug)]
pub struct BackgroundTask {
    /// Unique task id.
    pub id: String,
    /// Prompt for the agent.
    pub prompt: String,
    /// System prompt for the agent.
    pub system_prompt: String,
    /// Current status.
    pub status: TaskStatus,
    /// Result, once completed.
    pub result: Option<String>,
    /// Error message, once failed.
    pub error: Option<String>,
    /// Creation time (RFC 3339).
    pub created_at: String,
    /// Last update time (RFC 3339).
    pub updated_at: String,
    /// Agent-loop iterations used.
    pub iterations: usize,
    /// Provider that ran it.
    pub provider: Option<String>,
    /// Model that ran it.
    pub model: Option<String>,
}

fn clone_opt(o: &Option<String>) -> (r: Option<String>)
    ensures
        r == *o,
{
    match o {
        Some(s) => Some(s.clone()),
        None => None,
    }
}

impl Clone for BackgroundTask {
    fn clone(&self) -> (r: Self)
        ensures
            r == *self,
    {
        BackgroundTask {
            id: self.id.clone(),
            prompt: self.prompt.clone(),
            system_prompt: self.system_prompt.clone(),
            status: self.status,
            result: clone_opt(&self.result),
            error: clone_opt(&self.error),
            created_at: self.created_at.clone(),
            updated_at: self.updated_at.clone(),
            iterations: self.iterations,
            provider: clone_opt(&self.provider),
            model: clone_opt(&self.model),
        }
    }
}

impl BackgroundTask {
    /// A new pending task stamped with the current time.
    pub fn new(id: String, prompt: String, system_prompt: String) -> (t: Self)
        ensures
            t.id == id,
            t.prompt == prompt,
            t.system_prompt == system_prompt,
            t.status == TaskStatus::Pending,
            t.result is None,
            t.error is None,
            t.created_at == t.updated_at,
            t.iterations == 0,
            t.provider is None,
            t.model is None,
    {
        let now = now_rfc3339();
        BackgroundTask {
            id,
            prompt,
            system_prompt,
            status: TaskStatus::Pending,
            result: None,
            error: None,
            created_at: now.clone(),
            updated_at: now,
            iterations: 0,
            provider: None,
            model: None,
        }
    }
}

// ── Ordering by creation time ──────────────────────────────────────────────

/// Lexicographic order of texts (by code point), as `String`'s `Ord` orders
/// them; RFC 3339 timestamps of one format order by time.
pub open spec fn lex_le(a: Seq<char>, b: Seq<char>) -> bool
    decreases a.len(),
{
    if a.len() == 0 {
        true
    } else if b.len() == 0 {
        false
    } else if a[0] != b[0] {
        (a[0] as int) < (b[0] as int)
    } else {
        lex_le(a.skip(1), b.skip(1))
    }
}

/// Any two texts are ordered one way or the other.
pub proof fn lemma_lex_total(a: Seq<char>, b: Seq<char>)
    ensures
        lex_le(a, b) || lex_le(b, a),
    decreases a.len(),
{
    if a.len() > 0 && b.len() > 0 && a[0] == b[0] {
        lemma_lex_total(a.skip(1), b.skip(1));
    }
}

/// The order is transitive.
pub proof fn lemma_lex_trans(a: Seq<char>, b: Seq<char>, c: Seq<char>)
    requires
        lex_le(a, b),
        lex_le(b, c),
    ensures
        lex_le(a, c),
    decreases a.len(),
{
    if a.len() > 0 && b.len() > 0 && c.len() > 0 && a[0] == b[0] && b[0] == c[0] {
        lemma_lex_trans(a.skip(1), b.skip(1), c.skip(1));
    }
}

/// Whether `a` orders strictly before `b`.
pub fn lex_less(a: &[char], b: &[char]) -> (r: bool)
    ensures
        r == !lex_le(b@, a@),
{
    let mut i: usize = 0;
    assert(a@.skip(0) =~= a@ && b@.skip(0) =~= b@);
    while i < a.len() && i < b.len()
        invariant
            i <= a@.len(),
            i <= b@.len(),
            lex_le(b@, a@) == lex_le(b@.skip(i as int), a@.skip(i as int)),
        decreases a@.len() - i,
    {
        proof {
            assert(a@.skip(i as int)[0] == a@[i as int]);
            assert(b@.skip(i as int)[0] == b@[i as int]);
            assert(a@.skip(i as int).skip(1) =~= a@.skip(i + 1));
            assert(b@.skip(i as int).skip(1) =~= b@.skip(i + 1));
        }
        if a[i] != b[i] {
            return a[i] < b[i];
        }
        i = i + 1;
    }
    i < b.len()
}

/// Tasks sorted newest first.
pub open spec fn newest_first(ts: Seq<BackgroundTask>) -> bool {
    forall|i: int, j: int| 0 <= i < j < ts.len() ==> lex_le(ts[j].created_at@, ts[i].created_at@)
}

// ── The store ──────────────────────────────────────────────────────────────

/// `i` is the slot of task `id`.
pub open spec fn task_slot(ts: Seq<BackgroundTask>, id: Seq<char>, i: int) -> bool {
    0 <= i < ts.len() && ts[i].id@ == id
}

/// Task `id` is stored.
pub open spec fn has_task(ts: Seq<BackgroundTask>, id: Seq<char>) -> bool {
    exists|i: int| task_slot(ts, id, i)
}

/// No two tasks share an id.
pub open spec fn unique_ids(ts: Seq<BackgroundTask>) -> bool {
    forall|i: int, j: int| 0 <= i < ts.len() && 0 <= j < ts.len() && i != j ==> (#[trigger] ts[i]).id@ != (#[trigger] ts[j]).id@
}

/// The message for an unknown task.
pub open spec fn not_found_text(id: Seq<char>) -> Seq<char> {
    "Task '"@ + id + "' not found"@
}

/// The ids of the incomplete tasks, in order.
pub open spec fn incomplete_ids(ts: Seq<BackgroundTask>) -> Seq<Seq<char>>
    decreases ts.len(),
{
    if ts.len() == 0 {
        seq![]
    } else {
        let prev = incomplete_ids(ts.drop_last());
        if incomplete(ts.last().status) { prev.push(ts.last().id@) } else { prev }
    }
}

/// The in-memory index of background tasks.
#[derive(Debug)]
pub struct TaskStore {
    /// The tasks, in submission order.
    pub tasks: Vec<BackgroundTask>,
}

fn not_found(id: &str) -> (e: RavenClawsError)
    ensures
        e matches RavenClawsError::CommandExecution(m) && m@ == not_found_text(id@),
{
    let mut v: Vec<char> = Vec::new();
    push_str(&mut v, "Task '");
    push_str(&mut v, id);
    push_str(&mut v, "' not found");
    RavenClawsError::CommandExecution(string_from_chars(&v))
}

impl TaskStore {
    /// Task ids are unique.
    pub open spec fn well_formed(&self) -> bool {
        unique_ids(self.tasks@)
    }

    /// An empty store.
    pub fn new() -> (s: Self)
        ensures
            s.well_formed(),
            s.tasks@.len() == 0,
    {
        TaskStore { tasks: Vec::new() }
    }

    fn position(&self, id: &str) -> (r: Option<usize>)
        ensures
            match r {
                Some(i) => task_slot(self.tasks@, id@, i as int),
                None => !has_task(self.tasks@, id@),
            },
    {
        let mut i: usize = 0;
        while i < self.tasks.len()
            invariant
                i <= self.tasks@.len(),
                forall|k: int| 0 <= k < i ==> self.tasks@[k].id@ != id@,
            decreases self.tasks@.len() - i,
        {
            if str_eq(self.tasks[i].id.as_str(), id) {
                return Some(i);
            }
            i = i + 1;
        }
        None
    }

    /// Stores a task, replacing a stored task with the same id.
    pub fn insert(&mut self, task: BackgroundTask)
        requires
            old(self).well_formed(),
        ensures
            final(self).well_formed(),
            forall|i: int| #[trigger] task_slot(old(self).tasks@, task.id@, i) ==> final(self).tasks@
                == old(self).tasks@.update(i, task),
            !has_task(old(self).tasks@, task.id@) ==> final(self).tasks@ == old(self).tasks@.push(task),
    {
        let ghost t = task;
        match self.position(task.id.as_str()) {
            Some(i) => {
                let ghost pre = self.tasks@;
                self.tasks.set(i, task);
                proof {
                    assert(self.tasks@ == pre.update(i as int, t));
                    assert forall|x: int, y: int|
                        0 <= x < self.tasks@.len() && 0 <= y < self.tasks@.len() && x != y implies (#[trigger] self.tasks@[x]).id@
                        != (#[trigger] self.tasks@[y]).id@ by {
                        if x != i && y != i {
                            assert(pre[x] == self.tasks@[x] && pre[y] == self.tasks@[y]);
                        } else if x == i {
                            assert(pre[y] == self.tasks@[y]);
                        } else {
                            assert(pre[x] == self.tasks@[x]);
                        }
                    }
                }
            },
            None => {
                let ghost pre = self.tasks@;
                self.tasks.push(task);
                proof {
                    assert forall|x: int, y: int|
                        0 <= x < self.tasks@.len() && 0 <= y < self.tasks@.len() && x != y implies (#[trigger] self.tasks@[x]).id@
                        != (#[trigger] self.tasks@[y]).id@ by {
                        if x < pre.len() && y < pre.len() {
                            assert(pre[x] == self.tasks@[x] && pre[y] == self.tasks@[y]);
                        } else if x < pre.len() {
                            assert(!task_slot(pre, t.id@, x));
                        } else {
                            assert(!task_slot(pre, t.id@, y));
                        }
                    }
                }
            },
        }
    }

    /// The status of a task.
    pub fn status(&self, task_id: &str) -> (r: Result<TaskStatus, RavenClawsError>)
        requires
            self.well_formed(),
        ensures
            forall|i: int| #[trigger] task_slot(self.tasks@, task_id@, i) ==> r == Ok::<TaskStatus, RavenClawsError>(
                self.tasks@[i].status,
            ),
            !has_task(self.tasks@, task_id@) ==> (r matches Err(RavenClawsError::CommandExecution(m)) && m@
                == not_found_text(task_id@)),
    {
        match self.position(task_id) {
            Some(i) => Ok(self.tasks[i].status),
            None => Err(not_found(task_id)),
        }
    }

    /// A copy of a task.
    pub fn get_task(&self, task_id: &str) -> (r: Result<BackgroundTask, RavenClawsError>)
        requires
            self.well_formed(),
        ensures
            forall|i: int| #[trigger] task_slot(self.tasks@, task_id@, i) ==> r == Ok::<BackgroundTask, RavenClawsError>(
                self.tasks@[i],
            ),
            !has_task(self.tasks@, task_id@) ==> (r matches Err(RavenClawsError::CommandExecution(m)) && m@
                == not_found_text(task_id@)),
    {
        match self.position(task_id) {
            Some(i) => Ok(self.tasks[i].clone()),
            None => Err(not_found(task_id)),
        }
    }

    /// Cancels a pending or running task; a task in another status cannot be
    /// cancelled.
    pub fn cancel(&mut self, task_id: &str) -> (r: Result<(), RavenClawsError>)
        requires
            old(self).well_formed(),
        ensures
            final(self).well_formed(),
            !has_task(old(self).tasks@, task_id@) ==> (r matches Err(RavenClawsError::CommandExecution(m)) && m@
                == not_found_text(task_id@)) && final(self).tasks@ == old(self).tasks@,
            forall|i: int| #[trigger] task_slot(old(self).tasks@, task_id@, i) ==> {
                let t = old(self).tasks@[i];
                if incomplete(t.status) {
                    &&& r is Ok
                    &&& final(self).tasks@.len() == old(self).tasks@.len()
                    &&& forall|j: int| 0 <= j < old(self).tasks@.len() && j != i ==> final(self).tasks@[j] == old(self).tasks@[j]
                    &&& final(self).tasks@[i] == (BackgroundTask {
                        status: TaskStatus::Cancelled,
                        updated_at: final(self).tasks@[i].updated_at,
                        ..t
                    })
                } else {
                    &&& r matches Err(RavenClawsError::CommandExecution(m)) && m@ == "Cannot cancel task '"@ + task_id@
                        + "' in status '"@ + status_name(t.status) + "'"@
                    &&& final(self).tasks@ == old(self).tasks@
                }
            },
    {
        match self.position(task_id) {
            None => Err(not_found(task_id)),
            Some(i) => {
                let st = self.tasks[i].status;
                if st == TaskStatus::Pending || st == TaskStatus::Running {
                    let mut t = self.tasks[i].clone();
                    t.status = TaskStatus::Cancelled;
                    t.updated_at = now_rfc3339();
                    self.insert(t);
                    Ok(())
                } else {
                    let mut v: Vec<char> = Vec::new();
                    push_str(&mut v, "Cannot cancel task '");
                    push_str(&mut v, task_id);
                    push_str(&mut v, "' in status '");
                    push_str(&mut v, st.name());
                    push_str(&mut v, "'");
                    Err(RavenClawsError::CommandExecution(string_from_chars(&v)))
                }
            },
        }
    }

    /// Marks a task as running with the given provider and model, and returns
    /// its prompt and system prompt for the agent loop.
    pub fn start(&mut self, task_id: &str, provider: &str, model: &str) -> (r: Result<(String, String), RavenClawsError>)
        requires
            old(self).well_formed(),
        ensures
            final(self).well_formed(),
            !has_task(old(self).tasks@, task_id@) ==> (r matches Err(RavenClawsError::CommandExecution(m)) && m@
                == not_found_text(task_id@)) && final(self).tasks@ == old(self).tasks@,
            forall|i: int| #[trigger] task_slot(old(self).tasks@, task_id@, i) ==> {
                let t = old(self).tasks@[i];
                let n = final(self).tasks@[i];
                &&& r matches Ok(p) && p.0 == t.prompt && p.1 == t.system_prompt
                &&& final(self).tasks@.len() == old(self).tasks@.len()
                &&& forall|j: int| 0 <= j < old(self).tasks@.len() && j != i ==> final(self).tasks@[j] == old(self).tasks@[j]
                &&& n.status == TaskStatus::Running
                &&& n.provider matches Some(pv) && pv@ == provider@
                &&& n.model matches Some(md) && md@ == model@
                &&& n == (BackgroundTask {
                    status: TaskStatus::Running,
                    provider: n.provider,
                    model: n.model,
                    updated_at: n.updated_at,
                    ..t
                })
            },
    {
        match self.position(task_id) {
            None => Err(not_found(task_id)),
            Some(i) => {
                let mut t = self.tasks[i].clone();
                t.status = TaskStatus::Running;
                t.provider = Some(String::from_str(provider));
                t.model = Some(String::from_str(model));
                t.updated_at = now_rfc3339();
                let prompt = t.prompt.clone();
                let system = t.system_prompt.clone();
                self.insert(t);
                Ok((prompt, system))
            },
        }
    }

    /// Records the outcome of a task's agent loop: completed with the
    /// response, or failed with the error's text; the outcome is handed back.
    pub fn finish(&mut self, task_id: &str, outcome: Result<String, RavenClawsError>) -> (r: Result<String, RavenClawsError>)
        requires
            old(self).well_formed(),
        ensures
            final(self).well_formed(),
            !has_task(old(self).tasks@, task_id@) ==> (r matches Err(RavenClawsError::CommandExecution(m)) && m@
                == not_found_text(task_id@)) && final(self).tasks@ == old(self).tasks@,
            forall|i: int| #[trigger] task_slot(old(self).tasks@, task_id@, i) ==> {
                let t = old(self).tasks@[i];
                let n = final(self).tasks@[i];
                &&& final(self).tasks@.len() == old(self).tasks@.len()
                &&& forall|j: int| 0 <= j < old(self).tasks@.len() && j != i ==> final(self).tasks@[j] == old(self).tasks@[j]
                &&& match outcome {
                    Ok(resp) => n.status == TaskStatus::Completed && n.result == Some(resp) && r == Ok::<
                        String,
                        RavenClawsError,
                    >(resp) && n == (BackgroundTask {
                        status: TaskStatus::Completed,
                        result: n.result,
                        updated_at: n.updated_at,
                        ..t
                    }),
                    Err(e) => n.status == TaskStatus::Failed && (n.error matches Some(m) && m@ == error_text(e))
                        && r == Err::<String, RavenClawsError>(e) && n == (BackgroundTask {
                        status: TaskStatus::Failed,
                        error: n.error,
                        updated_at: n.updated_at,
                        ..t
                    }),
                }
            },
    {
        match self.position(task_id) {
            None => Err(not_found(task_id)),
            Some(i) => {
                let mut t = self.tasks[i].clone();
                match outcome {
                    Ok(resp) => {
                        t.status = TaskStatus::Completed;
                        t.result = Some(resp.clone());
                        t.updated_at = now_rfc3339();
                        self.insert(t);
                        Ok(resp)
                    },
                    Err(e) => {
                        t.status = TaskStatus::Failed;
                        t.error = Some(e.message());
                        t.updated_at = now_rfc3339();
                        self.insert(t);
                        Err(e)
                    },
                }
            },
        }
    }

    /// The ids of the tasks still to run (pending or running).
    pub fn resume_incomplete(&self) -> (ids: Vec<String>)
        ensures
            ids@.len() == incomplete_ids(self.tasks@).len(),
            forall|k: int| 0 <= k < ids@.len() ==> #[trigger] ids@[k]@ == incomplete_ids(self.tasks@)[k],
    {
        let mut out: Vec<String> = Vec::new();
        let mut i: usize = 0;
        while i < self.tasks.len()
            invariant
                i <= self.tasks@.len(),
                out@.len() == incomplete_ids(self.tasks@.take(i as int)).len(),
                forall|k: int| 0 <= k < out@.len() ==> #[trigger] out@[k]@ == incomplete_ids(self.tasks@.take(i as int))[k],
            decreases self.tasks@.len() - i,
        {
            proof {
                let p = self.tasks@.take(i + 1);
                assert(p.drop_last() == self.tasks@.take(i as int));
                assert(p.last() == self.tasks@[i as int]);
            }
            let st = self.tasks[i].status;
            if st == TaskStatus::Pending || st == TaskStatus::Running {
                out.push(self.tasks[i].id.clone());
            }
            i = i + 1;
        }
        proof {
            assert(self.tasks@.take(self.tasks@.len() as int) == self.tasks@);
        }
        out
    }

    /// Copies of all tasks, newest first (a stable sort by creation time).
    pub fn list_tasks(&self) -> (ts: Vec<BackgroundTask>)
        ensures
            newest_first(ts@),
            ts@.to_multiset() == self.tasks@.to_multiset(),
    {
        let mut out: Vec<BackgroundTask> = Vec::new();
        let mut i: usize = 0;
        assert(out@ =~= self.tasks@.take(0));
        while i < self.tasks.len()
            invariant
                i <= self.tasks@.len(),
                newest_first(out@),
                out@.to_multiset() == self.tasks@.take(i as int).to_multiset(),
            decreases self.tasks@.len() - i,
        {
            let t = self.tasks[i].clone();
            let key = chars_of(t.created_at.as_str());
            let mut p: usize = 0;
            while p < out.len()
                invariant_except_break
                    p <= out@.len(),
                    key@ == t.created_at@,
                    forall|k: int| 0 <= k < p ==> lex_le(t.created_at@, #[trigger] out@[k].created_at@),
                ensures
                    p <= out@.len(),
                    forall|k: int| 0 <= k < p ==> lex_le(t.created_at@, #[trigger] out@[k].created_at@),
                    p < out@.len() ==> !lex_le(t.created_at@, out@[p as int].created_at@),
                decreases out@.len() - p,
            {
                let other = chars_of(out[p].created_at.as_str());
                if lex_less(&other, &key) {
                    break;
                }
                p = p + 1;
            }
            proof {
                if p < out@.len() {
                    assert(!lex_le(t.created_at@, out@[p as int].created_at@));
                    lemma_lex_total(t.created_at@, out@[p as int].created_at@);
                }
            }
            let ghost before = out@;
            out.insert(p, t);
            proof {
                assert forall|x: int, y: int| 0 <= x < y < out@.len() implies lex_le(
                    out@[y].created_at@,
                    out@[x].created_at@,
                ) by {
                    if x < p && y == p {
                    } else if x == p && y > p {
                        let yy = y - 1;
                        if yy > p {
                            lemma_lex_trans(before[yy].created_at@, before[p as int].created_at@, t.created_at@);
                        }
                    } else if x < p && y > p {
                        assert(out@[x] == before[x] && out@[y] == before[y - 1]);
                    } else if y < p {
                        assert(out@[x] == before[x] && out@[y] == before[y]);
                    } else {
                        assert(out@[x] == before[x - 1] && out@[y] == before[y - 1]);
                    }
                }
                to_multiset_insert(before, p as int, t);
                let s = self.tasks@.take(i + 1);
                assert(s == self.tasks@.take(i as int).push(self.tasks@[i as int]));
                to_multiset_build(self.tasks@.take(i as int), self.tasks@[i as int]);
            }
            i = i + 1;
        }
        proof {
            assert(self.tasks@.take(self.tasks@.len() as int) == self.tasks@);
        }
        out
    }

    /// The number of stored tasks.
    pub fn len(&self) -> (n: usize)
        ensures
            n == self.tasks@.len(),
    {
        self.tasks.len()
    }
}

} // verus!
