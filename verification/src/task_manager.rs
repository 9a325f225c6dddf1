//! The task manager: keeps one task up to date while an agent works on it,
//! applying the agent's task events and persisting the result.

use vstd::prelude::*;
use crate::error::A2AError;
use crate::core_types::{Message, MessageData, TaskState, TaskStatus, TaskStatusData};
use crate::events::{Event, EventData};
use crate::ids::{canonical_uuid, new_uuid_string, now_display, uuid_canonical_text};
use crate::json::{JsonData, Metadata};
use crate::models::{
    ArtifactData, Task, TaskData, TaskStatusUpdateEvent, TaskStatusUpdateEventData, TaskArtifactUpdateEvent,
    TaskArtifactUpdateEventData,
};
use crate::task_store::TaskStore;
use crate::text::{owned, str_eq, concat2, concat3};

verus! {

/// A task-related event.
pub enum TaskEvent {
    Task(Task),
    StatusUpdate(TaskStatusUpdateEvent),
    ArtifactUpdate(TaskArtifactUpdateEvent),
}

/// The content of a task-related event.
pub enum TaskEventData {
    Task(TaskData),
    StatusUpdate(TaskStatusUpdateEventData),
    ArtifactUpdate(TaskArtifactUpdateEventData),
}

impl TaskEventData {
    /// The id of the task the event is about.
    pub open spec fn task_id(self) -> Seq<char> {
        match self {
            TaskEventData::Task(t) => t.id,
            TaskEventData::StatusUpdate(e) => e.task_id,
            TaskEventData::ArtifactUpdate(e) => e.task_id,
        }
    }

    /// The id of the context the event is about.
    pub open spec fn context_id(self) -> Seq<char> {
        match self {
            TaskEventData::Task(t) => t.context_id,
            TaskEventData::StatusUpdate(e) => e.context_id,
            TaskEventData::ArtifactUpdate(e) => e.context_id,
        }
    }
}

impl DeepView for TaskEvent {
    type V = TaskEventData;

    open spec fn deep_view(&self) -> TaskEventData {
        match self {
            TaskEvent::Task(t) => TaskEventData::Task(t.deep_view()),
            TaskEvent::StatusUpdate(e) => TaskEventData::StatusUpdate(e.deep_view()),
            TaskEvent::ArtifactUpdate(e) => TaskEventData::ArtifactUpdate(e.deep_view()),
        }
    }
}

impl TaskEvent {
    /// The id of the task the event is about.
    pub fn task_id(&self) -> (r: String)
        ensures
            r@ == self.deep_view().task_id(),
    {
        match self {
            TaskEvent::Task(t) => t.id.clone(),
            TaskEvent::StatusUpdate(e) => e.task_id.clone(),
            TaskEvent::ArtifactUpdate(e) => e.task_id.clone(),
        }
    }

    /// The id of the context the event is about.
    pub fn context_id(&self) -> (r: String)
        ensures
            r@ == self.deep_view().context_id(),
    {
        match self {
            TaskEvent::Task(t) => t.context_id.clone(),
            TaskEvent::StatusUpdate(e) => e.context_id.clone(),
            TaskEvent::ArtifactUpdate(e) => e.context_id.clone(),
        }
    }

    /// The name of the kind of event.
    pub fn event_type(&self) -> (r: &'static str)
        ensures
            r@ == match self {
                TaskEvent::Task(_) => "Task"@,
                TaskEvent::StatusUpdate(_) => "TaskStatusUpdateEvent"@,
                TaskEvent::ArtifactUpdate(_) => "TaskArtifactUpdateEvent"@,
            },
    {
        match self {
            TaskEvent::Task(_) => "Task",
            TaskEvent::StatusUpdate(_) => "TaskStatusUpdateEvent",
            TaskEvent::ArtifactUpdate(_) => "TaskArtifactUpdateEvent",
        }
    }
}

/// An event that names the task and the context it is about.
pub trait TaskEventWrapper {
    /// The id of the task the event is about.
    spec fn event_task_id(&self) -> Seq<char>;

    /// The id of the context the event is about.
    spec fn event_context_id(&self) -> Seq<char>;

    /// The id of the task the event is about.
    fn task_id(&self) -> (r: &str)
        ensures
            r@ == self.event_task_id(),
    ;

    /// The id of the context the event is about.
    fn context_id(&self) -> (r: &str)
        ensures
            r@ == self.event_context_id(),
    ;
}

impl TaskEventWrapper for TaskStatusUpdateEvent {
    open spec fn event_task_id(&self) -> Seq<char> {
        self.task_id@
    }

    open spec fn event_context_id(&self) -> Seq<char> {
        self.context_id@
    }

    fn task_id(&self) -> (r: &str) {
        self.task_id.as_str()
    }

    fn context_id(&self) -> (r: &str) {
        self.context_id.as_str()
    }
}

impl TaskEventWrapper for TaskArtifactUpdateEvent {
    open spec fn event_task_id(&self) -> Seq<char> {
        self.task_id@
    }

    open spec fn event_context_id(&self) -> Seq<char> {
        self.context_id@
    }

    fn task_id(&self) -> (r: &str) {
        self.task_id.as_str()
    }

    fn context_id(&self) -> (r: &str) {
        self.context_id.as_str()
    }
}

/// A sequence with `x` appended, starting a new one when there is none.
pub open spec fn appended<A>(s: Option<Seq<A>>, x: A) -> Seq<A> {
    match s {
        Some(v) => v.push(x),
        None => seq![x],
    }
}

/// The task with the message of its status, if it has one, moved to the
/// end of its history.
pub open spec fn with_status_message_archived(t: TaskData) -> TaskData {
    match t.status.message {
        Some(m) => TaskData {
            history: Some(appended(t.history, m)),
            status: TaskStatusData { message: None, ..t.status },
            ..t
        },
        None => t,
    }
}

/// A task after a status update: the old status message goes to the
/// history, the event's metadata is merged into the task's (the event's
/// values win), and the event's status becomes the task's status.
pub open spec fn apply_status_update(t: TaskData, e: TaskStatusUpdateEventData) -> TaskData {
    let a = with_status_message_archived(t);
    TaskData {
        status: e.status,
        metadata: match e.metadata {
            Some(m) => Some(
                match a.metadata {
                    Some(old) => old.union_prefer_right(m),
                    None => m,
                },
            ),
            None => a.metadata,
        },
        ..a
    }
}

/// A task after an artifact update: the event's artifact is appended.
pub open spec fn apply_artifact_update(t: TaskData, e: TaskArtifactUpdateEventData) -> TaskData {
    TaskData { artifacts: Some(appended(t.artifacts, e.artifact)), ..t }
}

/// A task after an event: a task event replaces it, an update is applied.
pub open spec fn apply_event(t: TaskData, ev: TaskEventData) -> TaskData {
    match ev {
        TaskEventData::Task(x) => x,
        TaskEventData::StatusUpdate(e) => apply_status_update(t, e),
        TaskEventData::ArtifactUpdate(e) => apply_artifact_update(t, e),
    }
}

/// A task after a new message: the old status message goes to the history,
/// then the new message.
pub open spec fn add_message(t: TaskData, m: MessageData) -> TaskData {
    let a = with_status_message_archived(t);
    TaskData { history: Some(appended(a.history, m)), ..a }
}

/// A task as a task manager creates it: submitted, with no artifacts or
/// metadata, whose history holds the initial message if there is one.
pub open spec fn is_initial_task(
    t: TaskData,
    id: Seq<char>,
    context_id: Seq<char>,
    timestamp: Seq<char>,
    initial: Option<MessageData>,
) -> bool {
    &&& t.id == id
    &&& t.context_id == context_id
    &&& t.status == TaskStatusData { state: TaskState::Submitted, message: None, timestamp: Some(timestamp) }
    &&& t.artifacts is None
    &&& t.history == match initial {
        Some(m) => Some(seq![m]),
        None => None::<Seq<MessageData>>,
    }
    &&& t.metadata is None
    &&& t.kind == "task"@
}

/// A task that a task manager may create for an event naming `task_id` and
/// `context_id`: each id is the canonical form of the event's when `uuid`
/// reads it as a UUID, and a fresh random UUID otherwise; either way, each
/// id is canonical UUID text.
pub open spec fn is_fresh_task(t: TaskData, task_id: Seq<char>, context_id: Seq<char>, initial: Option<MessageData>) -> bool {
    &&& (uuid_canonical_text(task_id) matches Some(c) ==> t.id == c)
    &&& (uuid_canonical_text(context_id) matches Some(c) ==> t.context_id == c)
    &&& uuid_canonical_text(t.id) == Some(t.id)
    &&& uuid_canonical_text(t.context_id) == Some(t.context_id)
    &&& t.status.timestamp is Some
    &&& is_initial_task(t, t.id, t.context_id, t.status.timestamp->0, initial)
}

/// The task an update applies to, when one is at hand: the one in memory,
/// else the one stored under the task id.
pub open spec fn base_task(current: Option<TaskData>, tasks: Map<Seq<char>, TaskData>, task_id: Option<Seq<char>>) -> Option<TaskData> {
    match current {
        Some(t) => Some(t),
        None => match task_id {
            Some(k) => if tasks.contains_key(k) {
                Some(tasks[k])
            } else {
                None
            },
            None => None,
        },
    }
}

/// The abstract state of a task manager.
pub struct TaskManagerView {
    pub task_id: Option<Seq<char>>,
    pub context_id: Option<Seq<char>>,
    pub tasks: Map<Seq<char>, TaskData>,
    pub current: Option<TaskData>,
    pub initial: Option<MessageData>,
    /// Whether the store never fails (see `TaskStore::never_fails`).
    pub store_never_fails: bool,
}

/// What saving the event `ev` does: the event must name the manager's task
/// and context when they are known (else they become the event's); then a
/// task event is stored as it is, and an update is applied to the task at
/// hand or to a new one, and the result is stored and kept in memory.
/// Failures of the store are passed on, and are the only failures once the
/// ids match: with a store that never fails, the save succeeds.
pub open spec fn event_saved(pre: TaskManagerView, post: TaskManagerView, ev: TaskEventData, r: Result<TaskData, A2AError>) -> bool {
    let eid = ev.task_id();
    let ecid = ev.context_id();
    if pre.task_id matches Some(t) && t != eid {
        &&& post == pre
        &&& r matches Err(A2AError::InvalidParams(m))
        &&& m@ == "Task in event doesn't match TaskManager "@ + pre.task_id->0 + " : "@ + eid
    } else if pre.context_id matches Some(c) && c != ecid {
        &&& post == TaskManagerView { task_id: Some(eid), ..pre }
        &&& r matches Err(A2AError::InvalidParams(m))
        &&& m@ == "Context in event doesn't match TaskManager "@ + pre.context_id->0 + " : "@ + ecid
    } else {
        &&& post.task_id == Some(eid)
        &&& post.context_id == Some(ecid)
        &&& post.initial == pre.initial
        &&& post.store_never_fails == pre.store_never_fails
        &&& (pre.store_never_fails ==> r is Ok)
        &&& (r matches Ok(t) ==> {
            &&& post.current == Some(t)
            &&& post.tasks == pre.tasks.insert(t.id, t)
            &&& match ev {
                TaskEventData::Task(x) => t == x,
                _ => match base_task(pre.current, pre.tasks, Some(eid)) {
                    Some(b) => t == apply_event(b, ev),
                    None => exists|f: TaskData| #[trigger] is_fresh_task(f, eid, ecid, pre.initial) && t == apply_event(f, ev),
                },
            }
        })
    }
}

/// The content of a task result.
pub open spec fn task_result(r: Result<Task, A2AError>) -> Result<TaskData, A2AError> {
    match r {
        Ok(t) => Ok(t.deep_view()),
        Err(e) => Err(e),
    }
}

/// A task with the given ids and timestamp, as a task manager creates it
/// (see `is_initial_task`).
pub fn initial_task(id: String, context_id: String, timestamp: String, initial: Option<Message>) -> (r: Task)
    ensures
        is_initial_task(r.deep_view(), id@, context_id@, timestamp@, initial.deep_view()),
{
    let history = match initial {
        Some(m) => {
            let v = vec![m];
            assert(v.deep_view() =~= seq![v@[0].deep_view()]);
            Some(v)
        },
        None => None,
    };
    Task {
        id,
        context_id,
        status: TaskStatus { state: TaskState::Submitted, message: None, timestamp: Some(timestamp) },
        artifacts: None,
        history,
        metadata: None,
        kind: owned("task"),
    }
}

/// `v` with `x` appended, or a new vector holding `x`.
fn append_to<T: DeepView>(v: Option<Vec<T>>, x: T) -> (r: Vec<T>)
    ensures
        r.deep_view() == appended(v.deep_view(), x.deep_view()),
{
    match v {
        Some(mut v) => {
            let ghost before = v.deep_view();
            v.push(x);
            assert(v.deep_view() =~= before.push(x.deep_view()));
            v
        },
        None => {
            let v = vec![x];
            assert(v.deep_view() =~= seq![x.deep_view()]);
            v
        },
    }
}

/// The task with its status message moved to its history.
fn archive_status_message(task: Task) -> (r: Task)
    ensures
        r.deep_view() == with_status_message_archived(task.deep_view()),
{
    let Task { id, context_id, status, artifacts, history, metadata, kind } = task;
    let TaskStatus { state, message, timestamp } = status;
    match message {
        Some(m) => {
            let m: Message = *m;
            let h = append_to(history, m);
            Task {
                id,
                context_id,
                status: TaskStatus { state, message: None, timestamp },
                artifacts,
                history: Some(h),
                metadata,
                kind,
            }
        },
        None => Task { id, context_id, status: TaskStatus { state, message: None, timestamp }, artifacts, history, metadata, kind },
    }
}

/// The task after the status update `e`.
fn status_updated(task: Task, e: &TaskStatusUpdateEvent) -> (r: Task)
    ensures
        r.deep_view() == apply_status_update(task.deep_view(), e.deep_view()),
{
    let a = archive_status_message(task);
    let Task { id, context_id, status: _, artifacts, history, metadata, kind } = a;
    let metadata = match &e.metadata {
        Some(m) => match metadata {
            Some(mut old) => {
                old.merge_from(m);
                Some(old)
            },
            None => {
                let mut fresh = Metadata::new();
                fresh.merge_from(m);
                assert(fresh.view() =~= m.view());
                Some(fresh)
            },
        },
        None => metadata,
    };
    Task { id, context_id, status: e.status.clone(), artifacts, history, metadata, kind }
}

/// The task after the artifact update `e`.
fn artifact_updated(task: Task, e: &TaskArtifactUpdateEvent) -> (r: Task)
    ensures
        r.deep_view() == apply_artifact_update(task.deep_view(), e.deep_view()),
{
    let Task { id, context_id, status, artifacts, history, metadata, kind } = task;
    let artifacts = append_to(artifacts, e.artifact.clone());
    Task { id, context_id, status, artifacts: Some(artifacts), history, metadata, kind }
}

/// Keeps one task up to date while an agent works on it.
pub struct TaskManager<S: TaskStore> {
    task_id: Option<String>,
    context_id: Option<String>,
    task_store: S,
    initial_message: Option<Message>,
    current_task: Option<Task>,
}

impl<S: TaskStore> TaskManager<S> {
    /// The abstract state of the manager.
    pub closed spec fn view(&self) -> TaskManagerView {
        TaskManagerView {
            task_id: self.task_id.deep_view(),
            context_id: self.context_id.deep_view(),
            tasks: self.task_store.tasks(),
            current: self.current_task.deep_view(),
            initial: self.initial_message.deep_view(),
            store_never_fails: self.task_store.never_fails(),
        }
    }

    /// A manager for the task `task_id` in the context `context_id`, either
    /// of which may be unknown yet. An empty task id is refused.
    pub fn new(
        task_id: Option<String>,
        context_id: Option<String>,
        task_store: S,
        initial_message: Option<Message>,
        context: Option<()>,
    ) -> (r: Result<Self, A2AError>)
        ensures
            (task_id matches Some(t) && t@.len() == 0) ==> (r matches Err(A2AError::InvalidParams(m))
                && m@ == "Task ID must be a non-empty string"@),
            !(task_id matches Some(t) && t@.len() == 0) ==> (r matches Ok(tm) && tm@ == (TaskManagerView {
                task_id: task_id.deep_view(),
                context_id: context_id.deep_view(),
                tasks: task_store.tasks(),
                current: None,
                initial: initial_message.deep_view(),
                store_never_fails: task_store.never_fails(),
            })),
    {
        if let Some(t) = &task_id {
            if t.as_str().unicode_len() == 0 {
                return Err(A2AError::invalid_params("Task ID must be a non-empty string"));
            }
        }
        Ok(TaskManager { task_id, context_id, task_store, initial_message, current_task: None })
    }

    /// The id of the task, when known.
    pub fn task_id(&self) -> (r: Option<&str>)
        ensures
            r is Some == self@.task_id is Some,
            r matches Some(s) ==> s@ == self@.task_id->0,
    {
        match &self.task_id {
            Some(t) => Some(t.as_str()),
            None => None,
        }
    }

    /// The id of the context, when known.
    pub fn context_id(&self) -> (r: Option<&str>)
        ensures
            r is Some == self@.context_id is Some,
            r matches Some(s) ==> s@ == self@.context_id->0,
    {
        match &self.context_id {
            Some(c) => Some(c.as_str()),
            None => None,
        }
    }

    /// The store the manager persists tasks in.
    pub fn task_store(&self) -> (r: &S)
        ensures
            r.tasks() == self@.tasks,
    {
        &self.task_store
    }

    /// The task: the one in memory, else the one stored under the task id
    /// (which is then kept in memory). Nothing when the task id is unknown.
    pub fn get_task(&mut self) -> (r: Result<Option<Task>, A2AError>)
        ensures
            final(self)@.task_id == old(self)@.task_id,
            final(self)@.context_id == old(self)@.context_id,
            final(self)@.tasks == old(self)@.tasks,
            final(self)@.initial == old(self)@.initial,
            final(self)@.store_never_fails == old(self)@.store_never_fails,
            old(self)@.store_never_fails ==> r is Ok,
            old(self)@.task_id is None ==> final(self)@ == old(self)@ && r matches Ok(None),
            old(self)@.task_id matches Some(id) ==> {
                &&& (old(self)@.current matches Some(t) ==> final(self)@ == old(self)@ && (r matches Ok(Some(x))
                    && x.deep_view() == t))
                &&& (old(self)@.current is None ==> {
                    &&& (r matches Ok(o) ==> (o is Some <==> old(self)@.tasks.contains_key(id)))
                    &&& (r matches Ok(Some(x)) ==> x.deep_view() == old(self)@.tasks[id]
                        && final(self)@.current == Some(x.deep_view()))
                    &&& (!(r matches Ok(Some(_))) ==> final(self)@.current is None)
                })
            },
    {
        let id = match &self.task_id {
            Some(id) => id.clone(),
            None => return Ok(None),
        };
        if let Some(t) = &self.current_task {
            return Ok(Some(t.clone()));
        }
        match self.task_store.get(id.as_str()) {
            Ok(Some(t)) => {
                self.current_task = Some(t.clone());
                Ok(Some(t))
            },
            Ok(None) => Ok(None),
            Err(e) => Err(e),
        }
    }

    /// Stores the task and keeps it in memory.
    fn save_task(&mut self, task: Task) -> (r: Result<(), A2AError>)
        ensures
            final(self)@.task_id == old(self)@.task_id,
            final(self)@.context_id == old(self)@.context_id,
            final(self)@.initial == old(self)@.initial,
            final(self)@.store_never_fails == old(self)@.store_never_fails,
            old(self)@.store_never_fails ==> r is Ok,
            r is Ok ==> final(self)@.tasks == old(self)@.tasks.insert(task.id@, task.deep_view())
                && final(self)@.current == Some(task.deep_view()),
            r is Err ==> final(self)@ == old(self)@,
    {
        let copy = task.clone();
        match self.task_store.save(copy) {
            Ok(()) => {
                self.current_task = Some(task);
                Ok(())
            },
            Err(e) => Err(e),
        }
    }

    /// A new task object for the given ids: each id is kept in `uuid`'s
    /// canonical form when it reads as a UUID and replaced by a fresh one
    /// otherwise; it is stamped with the current time.
    fn init_task_obj(&self, task_id: &str, context_id: &str) -> (r: Task)
        ensures
            is_fresh_task(r.deep_view(), task_id@, context_id@, self@.initial),
    {
        let id = match canonical_uuid(task_id) {
            Some(c) => c,
            None => new_uuid_string(),
        };
        let cid = match canonical_uuid(context_id) {
            Some(c) => c,
            None => new_uuid_string(),
        };
        let initial = match &self.initial_message {
            Some(m) => Some(m.clone()),
            None => None,
        };
        initial_task(id, cid, now_display(), initial)
    }

    /// The task an update applies to: the one in memory, else the one
    /// stored under the task id, else a new one, which is stored.
    pub fn ensure_task<E: TaskEventWrapper>(&mut self, event: &E) -> (r: Result<Task, A2AError>)
        ensures
            final(self)@.task_id == old(self)@.task_id,
            final(self)@.context_id == old(self)@.context_id,
            final(self)@.initial == old(self)@.initial,
            final(self)@.store_never_fails == old(self)@.store_never_fails,
            old(self)@.store_never_fails ==> r is Ok,
            old(self)@.current matches Some(c) ==> (r matches Ok(t) && t.deep_view() == c && final(self)@ == old(self)@),
            r is Err ==> final(self)@ == old(self)@,
            r matches Ok(t) ==> {
                match base_task(old(self)@.current, old(self)@.tasks, old(self)@.task_id) {
                    Some(b) => t.deep_view() == b && final(self)@ == old(self)@,
                    None => {
                        &&& is_fresh_task(t.deep_view(), event.event_task_id(), event.event_context_id(), old(self)@.initial)
                        &&& final(self)@.tasks == old(self)@.tasks.insert(t.id@, t.deep_view())
                        &&& final(self)@.current == Some(t.deep_view())
                    },
                }
            },
    {
        if let Some(t) = &self.current_task {
            return Ok(t.clone());
        }
        if let Some(id) = &self.task_id {
            match self.task_store.get(id.as_str()) {
                Ok(Some(t)) => return Ok(t),
                Ok(None) => {},
                Err(e) => return Err(e),
            }
        }
        let task = self.init_task_obj(event.task_id(), event.context_id());
        match self.save_task(task.clone()) {
            Ok(()) => Ok(task),
            Err(e) => Err(e),
        }
    }

    /// Checks that the event is about this manager's task and context
    /// (learning them when unknown), then saves it: a task is stored as it
    /// is, an update is applied to the task at hand (see `ensure_task`).
    pub fn save_task_event(&mut self, event: TaskEvent) -> (r: Result<Task, A2AError>)
        ensures
            event_saved(old(self)@, final(self)@, event.deep_view(), task_result(r)),
    {
        let eid = event.task_id();
        let ecid = event.context_id();
        match &self.task_id {
            Some(t) => {
                if !str_eq(t.as_str(), eid.as_str()) {
                    let head = concat2("Task in event doesn't match TaskManager ", t.as_str());
                    let msg = concat3(head.as_str(), " : ", eid.as_str());
                    return Err(A2AError::invalid_params(msg.as_str()));
                }
            },
            None => {
                self.task_id = Some(eid.clone());
            },
        }
        match &self.context_id {
            Some(c) => {
                if !str_eq(c.as_str(), ecid.as_str()) {
                    let head = concat2("Context in event doesn't match TaskManager ", c.as_str());
                    let msg = concat3(head.as_str(), " : ", ecid.as_str());
                    return Err(A2AError::invalid_params(msg.as_str()));
                }
            },
            None => {
                self.context_id = Some(ecid.clone());
            },
        }
        match event {
            TaskEvent::Task(task) => {
                match self.save_task(task.clone()) {
                    Ok(()) => Ok(task),
                    Err(e) => Err(e),
                }
            },
            TaskEvent::StatusUpdate(e) => {
                let ghost pre_tasks = self@.tasks;
                let base = match self.ensure_task(&e) {
                    Ok(b) => b,
                    Err(x) => return Err(x),
                };
                let task = status_updated(base, &e);
                match self.save_task(task.clone()) {
                    Ok(()) => {
                        assert(self@.tasks =~= pre_tasks.insert(task.id@, task.deep_view()));
                        Ok(task)
                    },
                    Err(x) => Err(x),
                }
            },
            TaskEvent::ArtifactUpdate(e) => {
                let ghost pre_tasks = self@.tasks;
                let base = match self.ensure_task(&e) {
                    Ok(b) => b,
                    Err(x) => return Err(x),
                };
                let task = artifact_updated(base, &e);
                match self.save_task(task.clone()) {
                    Ok(()) => {
                        assert(self@.tasks =~= pre_tasks.insert(task.id@, task.deep_view()));
                        Ok(task)
                    },
                    Err(x) => Err(x),
                }
            },
        }
    }

    /// Saves the event when it is about a task (a message passes through),
    /// and hands it back.
    pub fn process_event(&mut self, event: &Event) -> (r: Result<Event, A2AError>)
        ensures
            r matches Ok(e) ==> e.deep_view() == event.deep_view(),
            event is Message ==> r is Ok && final(self)@ == old(self)@,
            event matches Event::Task(t) ==> exists|x: Result<TaskData, A2AError>| #[trigger] event_saved(old(self)@, final(self)@,
                TaskEventData::Task(t.deep_view()), x) && (r is Ok <==> x is Ok),
            event matches Event::TaskStatusUpdate(u) ==> exists|x: Result<TaskData, A2AError>| #[trigger] event_saved(old(self)@, final(self)@,
                TaskEventData::StatusUpdate(u.deep_view()), x) && (r is Ok <==> x is Ok),
            event matches Event::TaskArtifactUpdate(u) ==> exists|x: Result<TaskData, A2AError>| #[trigger] event_saved(old(self)@, final(self)@,
                TaskEventData::ArtifactUpdate(u.deep_view()), x) && (r is Ok <==> x is Ok),
    {
        let te = match event {
            Event::Task(t) => TaskEvent::Task(t.clone()),
            Event::TaskStatusUpdate(u) => TaskEvent::StatusUpdate(u.clone()),
            Event::TaskArtifactUpdate(u) => TaskEvent::ArtifactUpdate(u.clone()),
            Event::Message(_) => return Ok(event.clone()),
        };
        let ghost ted = te.deep_view();
        let out = self.save_task_event(te);
        let ghost x = task_result(out);
        assert(event_saved(old(self)@, self@, ted, x));
        match out {
            Ok(_) => Ok(event.clone()),
            Err(e) => Err(e),
        }
    }

    /// Adds a message to the task's history, moving the task's status
    /// message there first; the result is kept in memory (not stored).
    pub fn update_with_message(&mut self, message: Message, task: Task) -> (r: Task)
        ensures
            r.deep_view() == add_message(task.deep_view(), message.deep_view()),
            final(self)@ == (TaskManagerView { current: Some(r.deep_view()), ..old(self)@ }),
    {
        let a = archive_status_message(task);
        let Task { id, context_id, status, artifacts, history, metadata, kind } = a;
        let h = append_to(history, message);
        let r = Task { id, context_id, status, artifacts, history: Some(h), metadata, kind };
        self.current_task = Some(r.clone());
        r
    }
}

/// Once a task manager has saved an event, it belongs to that event's task:
/// a later event about another task is refused and changes nothing.
pub proof fn law_task_identity_fixed(
    pre: TaskManagerView,
    mid: TaskManagerView,
    post: TaskManagerView,
    ev1: TaskEventData,
    r1: Result<TaskData, A2AError>,
    ev2: TaskEventData,
    r2: Result<TaskData, A2AError>,
)
    requires
        event_saved(pre, mid, ev1, r1),
        r1 is Ok,
        event_saved(mid, post, ev2, r2),
        ev2.task_id() != ev1.task_id(),
    ensures
        mid.task_id == Some(ev1.task_id()),
        r2 matches Err(A2AError::InvalidParams(_)),
        post == mid,
{
}

/// A saved event's task is what the store then holds under its id, and
/// what the manager keeps in memory.
pub proof fn law_saved_task_is_stored(pre: TaskManagerView, post: TaskManagerView, ev: TaskEventData, t: TaskData)
    requires
        event_saved(pre, post, ev, Ok(t)),
    ensures
        post.tasks.contains_key(t.id),
        post.tasks[t.id] == t,
        post.current == Some(t),
        forall|k: Seq<char>| k != t.id ==> (post.tasks.contains_key(k) <==> pre.tasks.contains_key(k))
            && (#[trigger] post.tasks.contains_key(k) ==> post.tasks[k] == pre.tasks[k]),
{
}

/// A status update keeps the task's identity and artifacts, takes the
/// event's status, and keeps the previous status message at the end of the
/// history.
pub proof fn law_status_update(t: TaskData, e: TaskStatusUpdateEventData)
    ensures
        apply_status_update(t, e).id == t.id,
        apply_status_update(t, e).context_id == t.context_id,
        apply_status_update(t, e).artifacts == t.artifacts,
        apply_status_update(t, e).status == e.status,
        t.status.message matches Some(m) ==> apply_status_update(t, e).history == Some(appended(t.history, m)),
        t.status.message is None ==> apply_status_update(t, e).history == t.history,
        e.metadata is None ==> apply_status_update(t, e).metadata == t.metadata,
        e.metadata matches Some(m) ==> apply_status_update(t, e).metadata matches Some(r)
            && forall|k: Seq<char>| #[trigger] m.contains_key(k) ==> r.contains_key(k) && r[k] == m[k],
{
}

/// A status update's metadata is merged into the task's: every key the
/// task held that the event does not mention keeps its value, every key
/// of the event takes the event's value, and no other key appears.
pub proof fn law_status_update_merges_metadata(t: TaskData, e: TaskStatusUpdateEventData, k: Seq<char>)
    requires
        t.metadata is Some,
        e.metadata is Some,
    ensures
        apply_status_update(t, e).metadata matches Some(n) && {
            let old = t.metadata->0;
            let m = e.metadata->0;
            &&& (old.contains_key(k) && !m.contains_key(k)) ==> n.contains_key(k) && n[k] == old[k]
            &&& m.contains_key(k) ==> n.contains_key(k) && n[k] == m[k]
            &&& n.contains_key(k) ==> old.contains_key(k) || m.contains_key(k)
        },
{
}

/// An artifact update appends exactly the event's artifact and changes
/// nothing else.
pub proof fn law_artifact_update(t: TaskData, e: TaskArtifactUpdateEventData)
    ensures
        apply_artifact_update(t, e).artifacts matches Some(a) && a.last() == e.artifact
            && a.drop_last() == match t.artifacts { Some(old) => old, None => Seq::empty() },
        apply_artifact_update(t, e) == (TaskData { artifacts: apply_artifact_update(t, e).artifacts, ..t }),
{
    match t.artifacts {
        Some(old) => assert(old.push(e.artifact).drop_last() =~= old),
        None => assert(seq![e.artifact].drop_last() =~= Seq::<ArtifactData>::empty()),
    }
}

/// Adding a message leaves the task without a status message and with the
/// message last in its history, right after the former status message.
pub proof fn law_message_added(t: TaskData, m: MessageData)
    ensures
        add_message(t, m).status.message is None,
        add_message(t, m).history matches Some(h) && h.last() == m,
        t.status.message matches Some(s) ==> (add_message(t, m).history matches Some(h)
            && h.len() >= 2 && h[h.len() - 2] == s),
        add_message(t, m).id == t.id,
        add_message(t, m).status.state == t.status.state,
{
}

/// Adding a message keeps the whole former history, in order, in front of
/// what is added: the former status message, if any, then the message.
pub proof fn law_message_keeps_history(t: TaskData, m: MessageData)
    ensures
        add_message(t, m).history matches Some(h) && {
            let prior = match t.history {
                Some(p) => p,
                None => Seq::empty(),
            };
            &&& h.len() == prior.len() + (if t.status.message is Some { 2int } else { 1int })
            &&& h.take(prior.len() as int) == prior
            &&& h.last() == m
        },
{
    let prior = match t.history {
        Some(p) => p,
        None => Seq::<MessageData>::empty(),
    };
    let h = add_message(t, m).history->0;
    match t.status.message {
        Some(s) => {
            assert(h =~= prior.push(s).push(m));
            assert(h.take(prior.len() as int) =~= prior);
        },
        None => {
            assert(h =~= prior.push(m));
            assert(h.take(prior.len() as int) =~= prior);
        },
    }
}

} // verus!
