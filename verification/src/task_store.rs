//! Persistence of tasks: the `TaskStore` interface, an in-memory store and a
//! database store that is not implemented yet.

use vstd::prelude::*;
use crate::error::A2AError;
use crate::models::{Task, TaskData};
use crate::text::str_eq;

verus! {

/// The tasks of a list, keyed by their id; a later task with the same id
/// replaces an earlier one.
pub open spec fn task_map(s: Seq<Task>) -> Map<Seq<char>, TaskData>
    decreases s.len(),
{
    if s.len() == 0 {
        Map::empty()
    } else {
        task_map(s.drop_last()).insert(s.last().id@, s.last().deep_view())
    }
}

/// No task id occurs twice in a list.
pub open spec fn ids_distinct(s: Seq<Task>) -> bool {
    forall|i: int, j: int| 0 <= i < j < s.len() ==> s[i].id@ != s[j].id@
}

/// `v` lists exactly the tasks of `m` that lie in the context `context`
/// (all tasks when it is `None`), each once, in some order.
pub open spec fn lists_tasks(v: Seq<Task>, m: Map<Seq<char>, TaskData>, context: Option<Seq<char>>) -> bool {
    &&& ids_distinct(v)
    &&& forall|i: int| 0 <= i < v.len() ==> {
        &&& m.contains_key(#[trigger] v[i].id@)
        &&& m[v[i].id@] == v[i].deep_view()
        &&& (context matches Some(c) ==> v[i].context_id@ == c)
    }
    &&& forall|k: Seq<char>| #[trigger] m.contains_key(k) && (context matches Some(c) ==> m[k].context_id == c)
        ==> exists|i: int| 0 <= i < v.len() && v[i].id@ == k
}

proof fn lemma_task_map_dom(s: Seq<Task>, k: Seq<char>)
    ensures
        task_map(s).contains_key(k) <==> exists|i: int| 0 <= i < s.len() && s[i].id@ == k,
    decreases s.len(),
{
    if s.len() > 0 {
        lemma_task_map_dom(s.drop_last(), k);
        if task_map(s).contains_key(k) && s.last().id@ != k {
            let i = choose|i: int| 0 <= i < s.len() - 1 && s.drop_last()[i].id@ == k;
            assert(s[i].id@ == k);
        }
        if exists|i: int| 0 <= i < s.len() && s[i].id@ == k {
            let i = choose|i: int| 0 <= i < s.len() && s[i].id@ == k;
            if i < s.len() - 1 {
                assert(s.drop_last()[i].id@ == k);
            }
        }
    }
}

proof fn lemma_task_map_at(s: Seq<Task>, i: int)
    requires
        ids_distinct(s),
        0 <= i < s.len(),
    ensures
        task_map(s).contains_key(s[i].id@),
        task_map(s)[s[i].id@] == s[i].deep_view(),
    decreases s.len(),
{
    if i < s.len() - 1 {
        lemma_task_map_at(s.drop_last(), i);
    }
}

proof fn lemma_task_map_update(s: Seq<Task>, i: int, t: Task)
    requires
        ids_distinct(s),
        0 <= i < s.len(),
        t.id@ == s[i].id@,
    ensures
        task_map(s.update(i, t)) == task_map(s).insert(t.id@, t.deep_view()),
        ids_distinct(s.update(i, t)),
    decreases s.len(),
{
    let s2 = s.update(i, t);
    if i == s.len() - 1 {
        assert(s2.drop_last() =~= s.drop_last());
        lemma_task_map_dom(s.drop_last(), t.id@);
    } else {
        lemma_task_map_update(s.drop_last(), i, t);
        assert(s2.drop_last() =~= s.drop_last().update(i, t));
    }
    assert(task_map(s2) =~= task_map(s).insert(t.id@, t.deep_view()));
    assert forall|a: int, b: int| 0 <= a < b < s2.len() implies s2[a].id@ != s2[b].id@ by {
        assert(s2[a].id@ == s[a].id@);
        assert(s2[b].id@ == s[b].id@);
    }
}

proof fn lemma_task_map_remove(s: Seq<Task>, i: int)
    requires
        ids_distinct(s),
        0 <= i < s.len(),
    ensures
        task_map(s.remove(i)) == task_map(s).remove(s[i].id@),
        ids_distinct(s.remove(i)),
    decreases s.len(),
{
    let s2 = s.remove(i);
    if i == s.len() - 1 {
        assert(s2 =~= s.drop_last());
        lemma_task_map_dom(s.drop_last(), s[i].id@);
        assert(task_map(s2) =~= task_map(s).remove(s[i].id@));
    } else {
        lemma_task_map_remove(s.drop_last(), i);
        assert(s2.drop_last() =~= s.drop_last().remove(i));
        assert(s2.last() == s.last());
        assert(task_map(s2) =~= task_map(s).remove(s[i].id@));
    }
}

proof fn lemma_task_map_push(s: Seq<Task>, t: Task)
    requires
        ids_distinct(s),
        !task_map(s).contains_key(t.id@),
    ensures
        task_map(s.push(t)) == task_map(s).insert(t.id@, t.deep_view()),
        ids_distinct(s.push(t)),
{
    let s2 = s.push(t);
    assert(s2.drop_last() =~= s);
    assert forall|a: int, b: int| 0 <= a < b < s2.len() implies s2[a].id@ != s2[b].id@ by {
        if b == s.len() {
            lemma_task_map_dom(s, t.id@);
            assert(s2[a] == s[a]);
        } else {
            assert(s2[a] == s[a]);
            assert(s2[b] == s[b]);
        }
    }
}

/// The position of the task with id `id` in `tasks`, if any.
fn find_task(tasks: &Vec<Task>, id: &str) -> (r: Option<usize>)
    ensures
        r is Some <==> task_map(tasks@).contains_key(id@),
        r matches Some(i) ==> i < tasks@.len() && tasks@[i as int].id@ == id@,
{
    let mut i: usize = 0;
    while i < tasks.len()
        invariant
            i <= tasks@.len(),
            forall|j: int| 0 <= j < i ==> tasks@[j].id@ != id@,
        decreases tasks@.len() - i,
    {
        if str_eq(tasks[i].id.as_str(), id) {
            proof {
                lemma_task_map_dom(tasks@, id@);
            }
            return Some(i);
        }
        i = i + 1;
    }
    proof {
        lemma_task_map_dom(tasks@, id@);
    }
    None
}

/// An interface for persisting and retrieving tasks by their id.
pub trait TaskStore {
    /// The stored tasks, by id.
    spec fn tasks(&self) -> Map<Seq<char>, TaskData>;

    /// Whether the store's saves, reads and deletes always succeed, as they
    /// do for a store held in memory.
    spec fn never_fails(&self) -> bool;

    /// Saves a task under its id, replacing one stored under the same id.
    fn save(&mut self, task: Task) -> (r: Result<(), A2AError>)
        ensures
            r is Ok ==> final(self).tasks() == old(self).tasks().insert(task.id@, task.deep_view()),
            r is Err ==> final(self).tasks() == old(self).tasks(),
            old(self).never_fails() ==> r is Ok,
            final(self).never_fails() == old(self).never_fails(),
    ;

    /// The task stored under `task_id`, if any.
    fn get(&self, task_id: &str) -> (r: Result<Option<Task>, A2AError>)
        ensures
            r matches Ok(o) ==> (o is Some <==> self.tasks().contains_key(task_id@)),
            r matches Ok(Some(t)) ==> t.deep_view() == self.tasks()[task_id@],
            self.never_fails() ==> r is Ok,
    ;

    /// Deletes the task stored under `task_id`, if any.
    fn delete(&mut self, task_id: &str) -> (r: Result<(), A2AError>)
        ensures
            r is Ok ==> final(self).tasks() == old(self).tasks().remove(task_id@),
            r is Err ==> final(self).tasks() == old(self).tasks(),
            old(self).never_fails() ==> r is Ok,
            final(self).never_fails() == old(self).never_fails(),
    ;

    /// Every stored task. A store that cannot list refuses.
    fn list(&self) -> (r: Result<Vec<Task>, A2AError>)
        ensures
            r matches Ok(v) ==> lists_tasks(v@, self.tasks(), None),
        default_ensures
            r matches Err(A2AError::UnsupportedOperation(m)) && m@ == "Task listing not supported"@,
    {
        Err(A2AError::unsupported_operation("Task listing not supported"))
    }

    /// The stored tasks of the context `context_id`. A store that cannot
    /// list refuses.
    fn list_by_context(&self, context_id: &str) -> (r: Result<Vec<Task>, A2AError>)
        ensures
            r matches Ok(v) ==> lists_tasks(v@, self.tasks(), Some(context_id@)),
        default_ensures
            r matches Err(A2AError::UnsupportedOperation(m)) && m@ == "Task listing by context not supported"@,
    {
        Err(A2AError::unsupported_operation("Task listing by context not supported"))
    }
}

/// A task store that keeps its tasks in memory.
pub struct InMemoryTaskStore {
    tasks: Vec<Task>,
}

impl InMemoryTaskStore {
    #[verifier::type_invariant]
    closed spec fn inv(self) -> bool {
        ids_distinct(self.tasks@)
    }

    /// An empty store.
    pub fn new() -> (r: Self)
        ensures
            r.tasks() == Map::<Seq<char>, TaskData>::empty(),
    {
        InMemoryTaskStore { tasks: Vec::new() }
    }

    /// An empty store with room for `capacity` tasks.
    pub fn with_capacity(capacity: usize) -> (r: Self)
        ensures
            r.tasks() == Map::<Seq<char>, TaskData>::empty(),
    {
        InMemoryTaskStore { tasks: Vec::with_capacity(capacity) }
    }

    /// The stored tasks that satisfy the context filter, copied.
    fn collect(&self, context_id: Option<&str>) -> (r: Vec<Task>)
        ensures
            lists_tasks(r@, self.tasks(), match context_id { Some(c) => Some(c@), None => None }),
    {
        proof {
            use_type_invariant(self);
        }
        let ghost ctx: Option<Seq<char>> = match context_id { Some(c) => Some(c@), None => None };
        let ghost s = self.tasks@;
        let mut out: Vec<Task> = Vec::new();
        let mut i: usize = 0;
        while i < self.tasks.len()
            invariant
                s == self.tasks@,
                ctx == (match context_id { Some(c) => Some(c@), None => None::<Seq<char>> }),
                i <= s.len(),
                out.deep_view() == selected(s.take(i as int), ctx),
            decreases s.len() - i,
        {
            let keep = match context_id {
                Some(c) => str_eq(self.tasks[i].context_id.as_str(), c),
                None => true,
            };
            proof {
                assert(s.take(i + 1).drop_last() =~= s.take(i as int));
                assert(s.take(i + 1).last() == s[i as int]);
            }
            if keep {
                let t = self.tasks[i].clone();
                out.push(t);
                assert(out.deep_view() =~= selected(s.take(i as int), ctx).push(s[i as int].deep_view()));
            }
            i = i + 1;
        }
        proof {
            assert(s.take(i as int) =~= s);
            lemma_selected(s, ctx);
            let d = selected(s, ctx);
            assert(out.deep_view().len() == out@.len());
            assert forall|j: int| 0 <= j < out@.len() implies #[trigger] out@[j].deep_view() == d[j] by {
                assert(out.deep_view()[j] == out@[j].deep_view());
            }
            assert forall|a: int, b: int| 0 <= a < b < out@.len() implies out@[a].id@ != out@[b].id@ by {
                assert(out@[a].deep_view() == d[a]);
                assert(out@[b].deep_view() == d[b]);
                assert(d[a].id != d[b].id);
            }
            assert forall|j: int| 0 <= j < out@.len() implies {
                &&& task_map(s).contains_key(#[trigger] out@[j].id@)
                &&& task_map(s)[out@[j].id@] == out@[j].deep_view()
                &&& (ctx matches Some(c) ==> out@[j].context_id@ == c)
            } by {
                assert(out@[j].deep_view() == d[j]);
                assert(task_map(s).contains_key(d[j].id));
            }
            assert forall|k: Seq<char>| #[trigger] task_map(s).contains_key(k) && (ctx matches Some(c) ==> task_map(s)[k].context_id == c)
                implies exists|j: int| 0 <= j < out@.len() && out@[j].id@ == k by {
                assert(in_context(task_map(s)[k], ctx));
                let j = choose|j: int| 0 <= j < d.len() && d[j].id == k;
                assert(out@[j].deep_view() == d[j]);
            }
        }
        out
    }
}

/// Whether a task lies in the context `context` (any task, when `None`).
pub open spec fn in_context(t: TaskData, context: Option<Seq<char>>) -> bool {
    context matches Some(c) ==> t.context_id == c
}

/// The contents of the tasks of a list that lie in `context`, in order.
pub open spec fn selected(s: Seq<Task>, context: Option<Seq<char>>) -> Seq<TaskData>
    decreases s.len(),
{
    if s.len() == 0 {
        Seq::empty()
    } else {
        let p = selected(s.drop_last(), context);
        if in_context(s.last().deep_view(), context) {
            p.push(s.last().deep_view())
        } else {
            p
        }
    }
}

proof fn lemma_selected(s: Seq<Task>, context: Option<Seq<char>>)
    requires
        ids_distinct(s),
    ensures
        forall|a: int, b: int| 0 <= a < b < selected(s, context).len()
            ==> #[trigger] selected(s, context)[a].id != #[trigger] selected(s, context)[b].id,
        forall|j: int| 0 <= j < selected(s, context).len() ==> {
            &&& task_map(s).contains_key(#[trigger] selected(s, context)[j].id)
            &&& task_map(s)[selected(s, context)[j].id] == selected(s, context)[j]
            &&& in_context(selected(s, context)[j], context)
        },
        forall|k: Seq<char>| #[trigger] task_map(s).contains_key(k) && in_context(task_map(s)[k], context)
            ==> exists|j: int| 0 <= j < selected(s, context).len() && selected(s, context)[j].id == k,
    decreases s.len(),
{
    if s.len() > 0 {
        let p = s.drop_last();
        let l = s.last();
        assert(ids_distinct(p));
        lemma_selected(p, context);
        lemma_task_map_dom(p, l.id@);
        let dp = selected(p, context);
        let ds = selected(s, context);
        assert forall|j: int| 0 <= j < dp.len() implies task_map(s).contains_key(#[trigger] dp[j].id)
            && task_map(s)[dp[j].id] == dp[j] && dp[j].id != l.id@ by {
        }
        if in_context(l.deep_view(), context) {
            assert(ds == dp.push(l.deep_view()));
            assert forall|a: int, b: int| 0 <= a < b < ds.len() implies #[trigger] ds[a].id != #[trigger] ds[b].id by {
                assert(ds[a] == dp[a]);
                if b < dp.len() {
                    assert(ds[b] == dp[b]);
                }
            }
            assert forall|j: int| 0 <= j < ds.len() implies {
                &&& task_map(s).contains_key(#[trigger] ds[j].id)
                &&& task_map(s)[ds[j].id] == ds[j]
                &&& in_context(ds[j], context)
            } by {
                if j < dp.len() {
                    assert(ds[j] == dp[j]);
                }
            }
            assert forall|k: Seq<char>| #[trigger] task_map(s).contains_key(k) && in_context(task_map(s)[k], context)
                implies exists|j: int| 0 <= j < ds.len() && ds[j].id == k by {
                if k == l.id@ {
                    assert(ds[dp.len() as int].id == k);
                } else {
                    assert(task_map(p).contains_key(k));
                    let j = choose|j: int| 0 <= j < dp.len() && dp[j].id == k;
                    assert(ds[j] == dp[j]);
                }
            }
        } else {
            assert(ds == dp);
            assert forall|k: Seq<char>| #[trigger] task_map(s).contains_key(k) && in_context(task_map(s)[k], context)
                implies exists|j: int| 0 <= j < ds.len() && ds[j].id == k by {
                if k == l.id@ {
                    assert(task_map(s)[k] == l.deep_view());
                } else {
                    assert(task_map(p).contains_key(k));
                }
            }
        }
    }
}

impl Default for InMemoryTaskStore {
    fn default() -> (r: Self)
        ensures
            r.tasks() == Map::<Seq<char>, TaskData>::empty(),
    {
        Self::new()
    }
}

impl TaskStore for InMemoryTaskStore {
    closed spec fn tasks(&self) -> Map<Seq<char>, TaskData> {
        task_map(self.tasks@)
    }

    open spec fn never_fails(&self) -> bool {
        true
    }

    fn save(&mut self, task: Task) -> (r: Result<(), A2AError>)
        ensures
            r is Ok,
    {
        proof {
            use_type_invariant(&*self);
        }
        let mut v: Vec<Task> = Vec::new();
        std::mem::swap(&mut v, &mut self.tasks);
        let ghost before = v@;
        let found = find_task(&v, task.id.as_str());
        match found {
            Some(i) => {
                let ghost t = task;
                v.set(i, task);
                proof {
                    lemma_task_map_update(before, i as int, t);
                    assert(v@ =~= before.update(i as int, t));
                }
            },
            None => {
                let ghost t = task;
                v.push(task);
                proof {
                    lemma_task_map_push(before, t);
                }
            },
        }
        self.tasks = v;
        Ok(())
    }

    fn get(&self, task_id: &str) -> (r: Result<Option<Task>, A2AError>)
        ensures
            r is Ok,
    {
        proof {
            use_type_invariant(self);
        }
        match find_task(&self.tasks, task_id) {
            Some(i) => {
                proof {
                    lemma_task_map_at(self.tasks@, i as int);
                }
                Ok(Some(self.tasks[i].clone()))
            },
            None => Ok(None),
        }
    }

    fn delete(&mut self, task_id: &str) -> (r: Result<(), A2AError>)
        ensures
            r is Ok,
    {
        proof {
            use_type_invariant(&*self);
        }
        let mut v: Vec<Task> = Vec::new();
        std::mem::swap(&mut v, &mut self.tasks);
        let ghost before = v@;
        let found = find_task(&v, task_id);
        match found {
            Some(i) => {
                proof {
                    lemma_task_map_remove(before, i as int);
                }
                let _ = v.remove(i);
            },
            None => {
                assert(task_map(before).remove(task_id@) =~= task_map(before));
            },
        }
        self.tasks = v;
        Ok(())
    }

    fn list(&self) -> (r: Result<Vec<Task>, A2AError>)
        ensures
            r is Ok,
    {
        Ok(self.collect(None))
    }

    fn list_by_context(&self, context_id: &str) -> (r: Result<Vec<Task>, A2AError>)
        ensures
            r is Ok,
    {
        Ok(self.collect(Some(context_id)))
    }
}

/// A task store backed by a database; no operation is implemented yet.
pub struct DatabaseTaskStore {
    connection_string: String,
}

impl DatabaseTaskStore {
    /// A store for the database at `connection_string`.
    pub fn new(connection_string: String) -> (r: Self)
        ensures
            r.connection_string() == connection_string@,
            r.tasks() == Map::<Seq<char>, TaskData>::empty(),
    {
        DatabaseTaskStore { connection_string }
    }

    /// The connection string the store was made with.
    pub closed spec fn connection_string(&self) -> Seq<char> {
        self.connection_string@
    }
}

impl TaskStore for DatabaseTaskStore {
    open spec fn tasks(&self) -> Map<Seq<char>, TaskData> {
        Map::empty()
    }

    open spec fn never_fails(&self) -> bool {
        false
    }

    fn save(&mut self, task: Task) -> (r: Result<(), A2AError>)
        ensures
            r matches Err(A2AError::UnsupportedOperation(m)) && m@ == "DatabaseTaskStore::save not yet implemented"@,
    {
        Err(A2AError::unsupported_operation("DatabaseTaskStore::save not yet implemented"))
    }

    fn get(&self, task_id: &str) -> (r: Result<Option<Task>, A2AError>)
        ensures
            r matches Err(A2AError::UnsupportedOperation(m)) && m@ == "DatabaseTaskStore::get not yet implemented"@,
    {
        Err(A2AError::unsupported_operation("DatabaseTaskStore::get not yet implemented"))
    }

    fn delete(&mut self, task_id: &str) -> (r: Result<(), A2AError>)
        ensures
            r matches Err(A2AError::UnsupportedOperation(m)) && m@ == "DatabaseTaskStore::delete not yet implemented"@,
    {
        Err(A2AError::unsupported_operation("DatabaseTaskStore::delete not yet implemented"))
    }
}

/// What a store gives back is what was saved last under the id: after a
/// save (as `TaskStore::save` changes `tasks()`), the task's id reads as
/// the saved task and every other id reads as before; after a delete, the
/// id reads as absent and every other id as before.
pub proof fn law_read_after_write(tasks: Map<Seq<char>, TaskData>, t: TaskData, other: Seq<char>)
    requires
        other != t.id,
    ensures
        tasks.insert(t.id, t).contains_key(t.id),
        tasks.insert(t.id, t)[t.id] == t,
        tasks.insert(t.id, t).contains_key(other) == tasks.contains_key(other),
        tasks.contains_key(other) ==> tasks.insert(t.id, t)[other] == tasks[other],
        !tasks.remove(t.id).contains_key(t.id),
        tasks.remove(t.id).contains_key(other) == tasks.contains_key(other),
        tasks.contains_key(other) ==> tasks.remove(t.id)[other] == tasks[other],
{
}

/// A listing of all tasks (as `TaskStore::list` promises it) has exactly
/// one entry per stored task.
pub proof fn law_listing_counts_tasks(v: Seq<Task>, tasks: Map<Seq<char>, TaskData>)
    requires
        lists_tasks(v, tasks, None),
    ensures
        v.len() == tasks.dom().len(),
{
    let ids = v.map_values(|t: Task| t.id@);
    assert forall|i: int, j: int| 0 <= i < ids.len() && 0 <= j < ids.len() && i != j implies ids[i] != ids[j] by {
        if i < j {
            assert(v[i].id@ != v[j].id@);
        } else {
            assert(v[j].id@ != v[i].id@);
        }
    }
    assert(ids.no_duplicates());
    ids.unique_seq_to_set();
    assert forall|k: Seq<char>| #[trigger] ids.to_set().contains(k) <==> tasks.dom().contains(k) by {
        if ids.to_set().contains(k) {
            let i = choose|i: int| 0 <= i < ids.len() && ids[i] == k;
            assert(tasks.contains_key(v[i].id@));
        }
        if tasks.dom().contains(k) {
            assert(tasks.contains_key(k));
            let i = choose|i: int| 0 <= i < v.len() && v[i].id@ == k;
            assert(ids[i] == k);
            assert(ids.contains(k));
        }
    }
    assert(ids.to_set() =~= tasks.dom());
}

} // verus!
