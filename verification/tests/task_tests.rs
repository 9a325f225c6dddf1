use a2a_rust::core_types::{Message, Part, Role, TaskState, TaskStatus};
use a2a_rust::error::A2AError;
use a2a_rust::events::Event;
use a2a_rust::models::{Artifact, Task, TaskArtifactUpdateEvent, TaskStatusUpdateEvent};
use a2a_rust::task_manager::{TaskEvent, TaskManager};
use a2a_rust::task_store::{DatabaseTaskStore, InMemoryTaskStore, TaskStore};
use uuid::Uuid;

fn create_test_task(id: &str, context_id: &str) -> Task {
    Task {
        id: id.to_string(),
        context_id: context_id.to_string(),
        status: TaskStatus {
            state: TaskState::Submitted,
            timestamp: Some(chrono::Utc::now().to_string()),
            message: None,
        },
        artifacts: None,
        history: None,
        metadata: None,
        kind: "task".to_string(),
    }
}

fn create_test_task_manager() -> TaskManager<InMemoryTaskStore> {
    TaskManager::new(
        Some("550e8400-e29b-41d4-a716-446655440000".to_string()),
        Some("550e8400-e29b-41d4-a716-446655440001".to_string()),
        InMemoryTaskStore::new(),
        None,
        None,
    )
    .unwrap()
}

#[test]
fn test_in_memory_task_store_basic_operations() {
    let mut store = InMemoryTaskStore::new();
    let task = create_test_task("550e8400-e29b-41d4-a716-446655440000", "550e8400-e29b-41d4-a716-446655440001");

    store.save(task.clone()).unwrap();

    let retrieved = store.get("550e8400-e29b-41d4-a716-446655440000").unwrap();
    assert!(retrieved.is_some());
    assert_eq!(retrieved.unwrap().id.to_string(), "550e8400-e29b-41d4-a716-446655440000");

    let not_found = store.get("nonexistent").unwrap();
    assert!(not_found.is_none());
}

#[test]
fn test_in_memory_task_store_update() {
    let mut store = InMemoryTaskStore::new();
    let mut task = create_test_task("550e8400-e29b-41d4-a716-446655440000", "550e8400-e29b-41d4-a716-446655440001");

    store.save(task.clone()).unwrap();

    task.status.state = TaskState::Completed;
    store.save(task.clone()).unwrap();

    let retrieved = store.get("550e8400-e29b-41d4-a716-446655440000").unwrap().unwrap();
    assert_eq!(retrieved.status.state, TaskState::Completed);
}

#[test]
fn test_in_memory_task_store_delete() {
    let mut store = InMemoryTaskStore::new();
    let task = create_test_task("550e8400-e29b-41d4-a716-446655440000", "550e8400-e29b-41d4-a716-446655440001");

    store.save(task.clone()).unwrap();
    assert!(store.get("550e8400-e29b-41d4-a716-446655440000").unwrap().is_some());

    store.delete("550e8400-e29b-41d4-a716-446655440000").unwrap();
    assert!(store.get("550e8400-e29b-41d4-a716-446655440000").unwrap().is_none());
}

#[test]
fn test_in_memory_task_store_list() {
    let mut store = InMemoryTaskStore::new();
    let task1 = create_test_task("550e8400-e29b-41d4-a716-446655440000", "550e8400-e29b-41d4-a716-446655440001");
    let task2 = create_test_task("550e8400-e29b-41d4-a716-446655440002", "550e8400-e29b-41d4-a716-446655440001");
    let task3 = create_test_task("550e8400-e29b-41d4-a716-446655440003", "550e8400-e29b-41d4-a716-446655440002");

    store.save(task1).unwrap();
    store.save(task2).unwrap();
    store.save(task3).unwrap();

    let all_tasks = store.list().unwrap();
    assert_eq!(all_tasks.len(), 3);

    let context1_tasks = store.list_by_context("550e8400-e29b-41d4-a716-446655440001").unwrap();
    assert_eq!(context1_tasks.len(), 2);

    let context2_tasks = store.list_by_context("550e8400-e29b-41d4-a716-446655440002").unwrap();
    assert_eq!(context2_tasks.len(), 1);
}

#[test]
fn saving_twice_keeps_one_task() {
    let mut store = InMemoryTaskStore::with_capacity(4);
    let task = create_test_task("t1", "c1");
    store.save(task.clone()).unwrap();
    store.save(task).unwrap();
    assert_eq!(store.list().unwrap().len(), 1);
    store.delete("t1").unwrap();
    store.delete("t1").unwrap();
    assert!(store.list().unwrap().is_empty());
}

#[test]
fn database_store_refuses_every_operation() {
    let mut store = DatabaseTaskStore::new("sqlite::memory:".to_string());
    match store.save(create_test_task("t1", "c1")) {
        Err(A2AError::UnsupportedOperation(m)) => assert_eq!(m, "DatabaseTaskStore::save not yet implemented"),
        _ => panic!("save should be refused"),
    }
    match store.get("t1") {
        Err(A2AError::UnsupportedOperation(m)) => assert_eq!(m, "DatabaseTaskStore::get not yet implemented"),
        _ => panic!("get should be refused"),
    }
    match store.delete("t1") {
        Err(A2AError::UnsupportedOperation(m)) => assert_eq!(m, "DatabaseTaskStore::delete not yet implemented"),
        _ => panic!("delete should be refused"),
    }
    match store.list() {
        Err(A2AError::UnsupportedOperation(m)) => assert_eq!(m, "Task listing not supported"),
        _ => panic!("list should be refused"),
    }
    match store.list_by_context("c1") {
        Err(A2AError::UnsupportedOperation(m)) => assert_eq!(m, "Task listing by context not supported"),
        _ => panic!("list_by_context should be refused"),
    }
}

#[test]
fn test_task_manager_initialization() {
    let manager = TaskManager::new(
        Some("550e8400-e29b-41d4-a716-446655440000".to_string()),
        Some("550e8400-e29b-41d4-a716-446655440001".to_string()),
        InMemoryTaskStore::new(),
        Some(Message::new(Role::User, vec![Part::text("Hello".to_string())])),
        None,
    );

    assert!(manager.is_ok());
    let manager = manager.unwrap();
    assert_eq!(manager.task_id(), Some("550e8400-e29b-41d4-a716-446655440000"));
    assert_eq!(manager.context_id(), Some("550e8400-e29b-41d4-a716-446655440001"));
}

#[test]
fn test_task_manager_invalid_task_id() {
    let manager = TaskManager::new(
        Some("".to_string()),
        Some("550e8400-e29b-41d4-a716-446655440001".to_string()),
        InMemoryTaskStore::new(),
        None,
        None,
    );

    assert!(manager.is_err());
    match manager {
        Err(A2AError::InvalidParams(m)) => assert_eq!(m, "Task ID must be a non-empty string"),
        _ => panic!("expected invalid params"),
    }
}

#[test]
fn test_save_task_event() {
    let mut manager = create_test_task_manager();

    let task_id = Uuid::parse_str("550e8400-e29b-41d4-a716-446655440000").unwrap();
    let context_id = Uuid::parse_str("550e8400-e29b-41d4-a716-446655440001").unwrap();

    let task = Task {
        id: task_id.to_string(),
        context_id: context_id.to_string(),
        status: TaskStatus {
            state: TaskState::Working,
            timestamp: Some(chrono::Utc::now().to_string()),
            message: None,
        },
        artifacts: None,
        history: None,
        metadata: None,
        kind: "task".to_string(),
    };

    let saved_task = manager.save_task_event(TaskEvent::Task(task.clone())).unwrap();
    assert_eq!(saved_task.id.to_string(), "550e8400-e29b-41d4-a716-446655440000");

    let retrieved = manager.task_store().get("550e8400-e29b-41d4-a716-446655440000").unwrap();
    assert!(retrieved.is_some());
    assert_eq!(retrieved.unwrap().status.state, TaskState::Working);
}

#[test]
fn test_ensure_task_creates_new() {
    let mut manager = create_test_task_manager();

    let status_event = TaskStatusUpdateEvent {
        task_id: "550e8400-e29b-41d4-a716-446655440002".to_string(),
        context_id: "550e8400-e29b-41d4-a716-446655440003".to_string(),
        status: TaskStatus {
            state: TaskState::Working,
            timestamp: Some(chrono::Utc::now().to_string()),
            message: None,
        },
        is_final: false,
        kind: "status-update".to_string(),
        metadata: None,
    };

    let task = manager.ensure_task(&status_event).unwrap();
    assert_eq!(task.id.to_string(), "550e8400-e29b-41d4-a716-446655440002");
    assert_eq!(task.context_id.to_string(), "550e8400-e29b-41d4-a716-446655440003");
    assert_eq!(task.status.state, TaskState::Submitted);

    let retrieved = manager.task_store().get("550e8400-e29b-41d4-a716-446655440002").unwrap();
    assert!(retrieved.is_some());
}

#[test]
fn test_update_with_message() {
    let mut manager = create_test_task_manager();

    let task_id = Uuid::parse_str("550e8400-e29b-41d4-a716-446655440000").unwrap();
    let context_id = Uuid::parse_str("550e8400-e29b-41d4-a716-446655440001").unwrap();

    let task = Task {
        id: task_id.to_string(),
        context_id: context_id.to_string(),
        status: TaskStatus {
            state: TaskState::Working,
            timestamp: Some(chrono::Utc::now().to_string()),
            message: Some(Box::new(Message::new(Role::Agent, vec![Part::text("Current status".to_string())]))),
        },
        artifacts: None,
        history: None,
        metadata: None,
        kind: "task".to_string(),
    };

    let new_message = Message::new(Role::User, vec![Part::text("New input".to_string())]);
    let updated_task = manager.update_with_message(new_message.clone(), task.clone());

    assert!(updated_task.history.is_some());
    assert_eq!(updated_task.history.as_ref().unwrap().len(), 2);
    assert_eq!(updated_task.history.as_ref().unwrap()[0].role, Role::Agent);
    assert_eq!(updated_task.history.as_ref().unwrap()[1].role, Role::User);
    assert!(updated_task.status.message.is_none());
}

#[test]
fn event_for_another_task_is_refused() {
    let mut manager = create_test_task_manager();
    let task = create_test_task("other-task", "550e8400-e29b-41d4-a716-446655440001");
    match manager.save_task_event(TaskEvent::Task(task)) {
        Err(A2AError::InvalidParams(m)) => assert_eq!(
            m,
            "Task in event doesn't match TaskManager 550e8400-e29b-41d4-a716-446655440000 : other-task"
        ),
        _ => panic!("expected a refusal"),
    }
    assert!(manager.task_store().get("other-task").unwrap().is_none());
}

#[test]
fn event_for_another_context_is_refused() {
    let mut manager = create_test_task_manager();
    let task = create_test_task("550e8400-e29b-41d4-a716-446655440000", "other-context");
    match manager.save_task_event(TaskEvent::Task(task)) {
        Err(A2AError::InvalidParams(m)) => assert_eq!(
            m,
            "Context in event doesn't match TaskManager 550e8400-e29b-41d4-a716-446655440001 : other-context"
        ),
        _ => panic!("expected a refusal"),
    }
}

#[test]
fn manager_learns_ids_from_first_event() {
    let mut manager = TaskManager::new(None, None, InMemoryTaskStore::new(), None, None).unwrap();
    assert!(manager.get_task().unwrap().is_none());
    let task = create_test_task("t1", "c1");
    manager.save_task_event(TaskEvent::Task(task)).unwrap();
    assert_eq!(manager.task_id(), Some("t1"));
    assert_eq!(manager.context_id(), Some("c1"));
    assert_eq!(manager.get_task().unwrap().unwrap().id, "t1");
}

#[test]
fn status_update_replaces_status_and_archives_message() {
    let mut manager = TaskManager::new(None, None, InMemoryTaskStore::new(), None, None).unwrap();
    let mut task = create_test_task("t1", "c1");
    task.status.message = Some(Box::new(Message::new(Role::Agent, vec![Part::text("thinking".to_string())])));
    manager.save_task_event(TaskEvent::Task(task)).unwrap();

    let update = TaskStatusUpdateEvent {
        task_id: "t1".to_string(),
        context_id: "c1".to_string(),
        status: TaskStatus::new(TaskState::Completed),
        is_final: true,
        metadata: None,
        kind: "status-update".to_string(),
    };
    let saved = manager.save_task_event(TaskEvent::StatusUpdate(update)).unwrap();
    assert_eq!(saved.status.state, TaskState::Completed);
    assert_eq!(saved.history.as_ref().unwrap().len(), 1);
    let stored = manager.task_store().get("t1").unwrap().unwrap();
    assert_eq!(stored.status.state, TaskState::Completed);
}

#[test]
fn artifact_update_appends_artifact() {
    let mut manager = TaskManager::new(None, None, InMemoryTaskStore::new(), None, None).unwrap();
    manager.save_task_event(TaskEvent::Task(create_test_task("t1", "c1"))).unwrap();

    let update = TaskArtifactUpdateEvent {
        task_id: "t1".to_string(),
        context_id: "c1".to_string(),
        artifact: Artifact {
            artifact_id: "a1".to_string(),
            name: None,
            description: None,
            parts: vec![Part::text("result".to_string())],
            metadata: None,
            extensions: None,
        },
        append: None,
        last_chunk: None,
        metadata: None,
        kind: "artifact-update".to_string(),
    };
    let saved = manager.save_task_event(TaskEvent::ArtifactUpdate(update)).unwrap();
    assert_eq!(saved.artifacts.as_ref().unwrap().len(), 1);
    assert_eq!(saved.artifacts.as_ref().unwrap()[0].artifact_id, "a1");
}

#[test]
fn messages_pass_through_process_event() {
    let mut manager = create_test_task_manager();
    let message = Message::new(Role::User, vec![Part::text("Hello".to_string())]);
    match manager.process_event(&Event::Message(message)).unwrap() {
        Event::Message(m) => assert_eq!(m.role, Role::User),
        _ => panic!("expected the message back"),
    }
    assert!(manager.task_store().get("550e8400-e29b-41d4-a716-446655440000").unwrap().is_none());
}

#[test]
fn task_event_names() {
    let task = create_test_task("t1", "c1");
    let event = TaskEvent::Task(task);
    assert_eq!(event.task_id(), "t1");
    assert_eq!(event.context_id(), "c1");
    assert_eq!(event.event_type(), "Task");
}

#[test]
fn new_task_ids_take_canonical_uuid_form() {
    let mut manager = TaskManager::new(None, None, InMemoryTaskStore::new(), None, None).unwrap();
    let event = TaskStatusUpdateEvent {
        task_id: "550E8400-E29B-41D4-A716-446655440002".to_string(),
        context_id: "not-a-uuid".to_string(),
        status: TaskStatus::new(TaskState::Working),
        is_final: false,
        metadata: None,
        kind: "status-update".to_string(),
    };
    let task = manager.ensure_task(&event).unwrap();
    assert_eq!(task.id, "550e8400-e29b-41d4-a716-446655440002");
    assert_ne!(task.context_id, "not-a-uuid");
    assert!(Uuid::parse_str(&task.context_id).is_ok());
    assert_eq!(task.status.state, TaskState::Submitted);
}
