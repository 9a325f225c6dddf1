use a2a_rust::core_types::{Message, Part, PartRoot, Role};
use a2a_rust::error::A2AError;
use a2a_rust::events::{Event, InMemoryEventQueue, QueueConfig, QueueError, DEFAULT_MAX_QUEUE_SIZE};
use a2a_rust::queue_manager::{
    validate_queue_id, InMemoryQueueManager, ManagedQueue, QueueManagerConfig, QueueManagerError,
};

fn hello() -> Event {
    Event::Message(Message::new(Role::User, vec![Part::text("Hello".to_string())]))
}

#[test]
fn test_queue_config_validation() {
    let config = QueueConfig::default();
    assert!(config.validate().is_ok());

    let config = QueueConfig { max_size: 0, ..Default::default() };
    assert!(config.validate().is_err());
}

#[test]
fn test_validate_queue_id() {
    // Valid IDs
    assert!(validate_queue_id("task-123").is_ok());
    assert!(validate_queue_id("queue_456").is_ok());
    assert!(validate_queue_id("valid-id-123").is_ok());

    // Invalid IDs
    assert!(validate_queue_id("").is_err());
    assert!(validate_queue_id("invalid/id").is_err());
    assert!(validate_queue_id("invalid\\id").is_err());
    assert!(validate_queue_id("invalid\0id").is_err());

    // Too long ID
    let long_id = "a".repeat(256);
    assert!(validate_queue_id(&long_id).is_err());
}

#[test]
fn test_queue_manager_config() {
    let config = QueueManagerConfig::default();
    assert_eq!(config.max_queues, 1000);
    assert!(config.auto_cleanup);
}

#[test]
fn test_queue_manager_error() {
    let error = QueueManagerError::QueueNotFound { id: "test".to_string() };
    let a2a_error: A2AError = error.to_a2a_error();
    assert!(a2a_error.message().contains("Queue not found"));
}

#[test]
fn test_basic_queue_operations() {
    let mut queue = InMemoryEventQueue::new().unwrap();
    queue.enqueue_event(hello()).unwrap();
    assert_eq!(queue.size(), 1);

    let dequeued = queue.dequeue_event(false).unwrap();
    assert_eq!(queue.size(), 0);
    match dequeued {
        Event::Message(msg) => assert_eq!(msg.role, Role::User),
        _ => panic!("Expected Message event"),
    }
}

#[test]
fn test_queue_tapping() {
    let mut parent = InMemoryEventQueue::new().unwrap();
    let child = parent.tap();
    parent.enqueue_event(hello()).unwrap();
    let child_event = parent.dequeue_tap(child, false).unwrap();
    match child_event {
        Event::Message(msg) => assert_eq!(msg.role, Role::User),
        _ => panic!("Expected Message event"),
    }
}

#[test]
fn test_queue_close() {
    let mut queue = InMemoryEventQueue::new().unwrap();
    queue.enqueue_event(hello()).unwrap();
    queue.close(false).unwrap();
    assert!(queue.is_closed());
    let _dequeued = queue.dequeue_event(false).unwrap();
    let result = queue.dequeue_event(false);
    assert!(result.is_err());
}

#[test]
fn test_queue_size_limit() {
    let config = QueueConfig::with_max_size(2);
    let mut queue = InMemoryEventQueue::with_config(config).unwrap();
    queue.enqueue_event(hello()).unwrap();
    queue.enqueue_event(hello()).unwrap();
    assert_eq!(queue.size(), 2);
    let result = queue.enqueue_event(hello());
    assert!(result.is_err());
}

#[test]
fn test_no_wait_dequeue() {
    let mut queue = InMemoryEventQueue::new().unwrap();
    let result = queue.dequeue_event(true);
    assert!(result.is_err());
}

#[test]
fn queue_is_first_in_first_out() {
    let mut queue = InMemoryEventQueue::new().unwrap();
    let first = Message::new(Role::User, vec![Part::text("one".to_string())]).with_message_id("m1".to_string());
    let second = Message::new(Role::Agent, vec![Part::text("two".to_string())]).with_message_id("m2".to_string());
    queue.enqueue_event(Event::Message(first)).unwrap();
    queue.enqueue_event(Event::Message(second)).unwrap();
    match queue.dequeue_event(true).unwrap() {
        Event::Message(m) => assert_eq!(m.message_id, "m1"),
        _ => panic!("Expected Message event"),
    }
    match queue.dequeue_event(true).unwrap() {
        Event::Message(m) => assert_eq!(m.message_id, "m2"),
        _ => panic!("Expected Message event"),
    }
}

#[test]
fn queue_error_texts() {
    assert_eq!(QueueError::Closed.to_string(), "Queue is closed");
    assert_eq!(QueueError::Full.to_string(), "Queue is full");
    assert_eq!(QueueError::Empty.to_string(), "Queue is empty");
    assert_eq!(QueueError::InvalidSize { size: 0 }.to_string(), "Invalid queue size: 0");
    match QueueError::Full.to_a2a_error() {
        A2AError::Internal(m) => assert_eq!(m, "Queue is full"),
        _ => panic!("Expected internal error"),
    }
}

#[test]
fn closed_queue_refuses_events() {
    let mut queue = InMemoryEventQueue::new().unwrap();
    queue.close(false).unwrap();
    assert!(matches!(queue.enqueue_event(hello()), Err(QueueError::Closed)));
    assert!(matches!(queue.dequeue_event(true), Err(QueueError::Closed)));
}

#[test]
fn immediate_close_discards_events() {
    let mut queue = InMemoryEventQueue::new().unwrap();
    queue.enqueue_event(hello()).unwrap();
    queue.close(true).unwrap();
    assert_eq!(queue.size(), 0);
    assert!(matches!(queue.dequeue_event(true), Err(QueueError::Closed)));
}

#[test]
fn tap_does_not_see_earlier_events_and_cannot_be_fed() {
    let mut queue = InMemoryEventQueue::new().unwrap();
    queue.enqueue_event(hello()).unwrap();
    let tap = queue.tap();
    assert_eq!(queue.tap_size(tap), 0);
    assert!(matches!(queue.dequeue_tap(tap, true), Err(QueueError::Empty)));
    match queue.enqueue_to_tap(tap, hello()) {
        Err(A2AError::UnsupportedOperation(m)) => assert_eq!(m, "Child queues cannot be enqueued directly"),
        _ => panic!("Expected unsupported operation"),
    }
}

#[test]
fn closed_tap_answers_closed() {
    let mut queue = InMemoryEventQueue::new().unwrap();
    let tap = queue.tap();
    queue.enqueue_event(hello()).unwrap();
    queue.close_tap(tap, false).unwrap();
    assert!(queue.tap_is_closed(tap));
    assert!(matches!(queue.dequeue_tap(tap, true), Err(QueueError::Closed)));
}

#[test]
fn invalid_queue_size_is_refused() {
    let result = InMemoryEventQueue::with_config(QueueConfig::with_max_size(0));
    match result {
        Err(A2AError::Internal(m)) => assert_eq!(m, "Invalid queue size: 0"),
        _ => panic!("Expected internal error"),
    }
    assert_eq!(QueueConfig::non_blocking().max_size, DEFAULT_MAX_QUEUE_SIZE);
    assert!(!QueueConfig::non_blocking().block_when_full);
}

#[test]
fn test_create_queue() {
    let mut manager = InMemoryQueueManager::new().unwrap();
    manager.create_queue("test-queue").unwrap();
    assert_eq!(manager.queue_count(), 1);
    assert!(manager.has_queue("test-queue"));
    manager.enqueue_event("test-queue", hello()).unwrap();
    assert_eq!(manager.queue_size("test-queue"), Some(1));
}

#[test]
fn test_create_or_tap() {
    let mut manager = InMemoryQueueManager::new().unwrap();
    let first = manager.create_or_tap("test-queue").unwrap();
    assert!(matches!(first, ManagedQueue::Primary));
    assert_eq!(manager.queue_count(), 1);
    let second = manager.create_or_tap("test-queue").unwrap();
    assert_eq!(manager.queue_count(), 1);
    let tap = match second {
        ManagedQueue::Tap(t) => t,
        ManagedQueue::Primary => panic!("Expected a tap"),
    };
    manager.enqueue_event("test-queue", hello()).unwrap();
    match manager.dequeue_tap_event("test-queue", tap).unwrap() {
        Event::Message(msg) => assert_eq!(msg.role, Role::User),
        _ => panic!("Expected Message event"),
    }
}

#[test]
fn test_close_queue() {
    let mut manager = InMemoryQueueManager::new().unwrap();
    manager.create_queue("test-queue").unwrap();
    assert_eq!(manager.queue_count(), 1);
    let queue = manager.close("test-queue").unwrap();
    assert_eq!(manager.queue_count(), 0);
    assert!(!manager.has_queue("test-queue"));
    assert!(queue.is_closed());
}

#[test]
fn test_close_all() {
    let mut manager = InMemoryQueueManager::new().unwrap();
    manager.create_queue("queue1").unwrap();
    manager.create_queue("queue2").unwrap();
    manager.create_queue("queue3").unwrap();
    assert_eq!(manager.queue_count(), 3);
    let closed = manager.close_all().unwrap();
    assert_eq!(manager.queue_count(), 0);
    assert_eq!(closed.len(), 3);
    for (_, queue) in &closed {
        assert!(queue.is_closed());
    }
}

#[test]
fn test_invalid_queue_id() {
    let mut manager = InMemoryQueueManager::new().unwrap();
    assert!(manager.create_queue("").is_err());
    assert!(manager.create_queue("invalid/id").is_err());
    let long_id = "a".repeat(256);
    assert!(manager.create_queue(&long_id).is_err());
}

#[test]
fn test_max_queues_limit() {
    let config = QueueManagerConfig { max_queues: 2, ..Default::default() };
    let mut manager = InMemoryQueueManager::with_config(config).unwrap();
    manager.create_queue("queue1").unwrap();
    manager.create_queue("queue2").unwrap();
    let result = manager.create_queue("queue3");
    match result {
        Err(A2AError::Internal(m)) => assert_eq!(m, "Maximum number of queues reached: 2"),
        _ => panic!("Expected internal error"),
    }
}

#[test]
fn test_queue_exists_error() {
    let mut manager = InMemoryQueueManager::new().unwrap();
    manager.create_queue("test-queue").unwrap();
    match manager.create_queue("test-queue") {
        Err(A2AError::Internal(m)) => assert_eq!(m, "Queue already exists: test-queue"),
        _ => panic!("Expected internal error"),
    }
}

#[test]
fn manager_errors_for_unknown_queues() {
    let mut manager = InMemoryQueueManager::new().unwrap();
    match manager.close("missing") {
        Err(A2AError::Internal(m)) => assert_eq!(m, "Queue not found: missing"),
        _ => panic!("Expected internal error"),
    }
    assert!(manager.tap("missing").unwrap().is_none());
    match manager.tap("bad/id") {
        Err(A2AError::Internal(m)) => assert_eq!(m, "Invalid queue ID: bad/id"),
        _ => panic!("Expected internal error"),
    }
    assert!(manager.enqueue_event("missing", hello()).is_err());
    assert_eq!(manager.queue_size("missing"), None);
}

#[test]
fn utf8_length_limit_counts_bytes() {
    // 127 two-byte characters are 254 bytes: accepted; 128 are 256 bytes.
    assert!(validate_queue_id(&"é".repeat(127)).is_ok());
    assert!(validate_queue_id(&"é".repeat(128)).is_err());
    assert!(validate_queue_id(&"a".repeat(255)).is_ok());
}

fn text_of(event: Event) -> String {
    match event {
        Event::Message(m) => match &m.parts[0] {
            Part::WithRoot { root: PartRoot::Text(t) } | Part::Direct(PartRoot::Text(t)) => t.text.clone(),
            _ => panic!("Expected a text part"),
        },
        _ => panic!("Expected a message"),
    }
}

fn says(text: &str) -> Event {
    Event::Message(Message::new(Role::User, vec![Part::text(text.to_string())]))
}

#[test]
fn tap_keeps_every_event_of_a_small_queue() {
    let mut queue = InMemoryEventQueue::with_config(QueueConfig::with_max_size(1)).unwrap();
    let tap = queue.tap();
    queue.enqueue_event(says("first")).unwrap();
    queue.dequeue_event(true).unwrap();
    queue.enqueue_event(says("second")).unwrap();
    queue.dequeue_event(true).unwrap();
    queue.enqueue_event(says("third")).unwrap();
    assert_eq!(text_of(queue.dequeue_tap(tap, true).unwrap()), "first");
    assert_eq!(text_of(queue.dequeue_tap(tap, true).unwrap()), "second");
    assert_eq!(text_of(queue.dequeue_tap(tap, true).unwrap()), "third");
    assert!(matches!(queue.dequeue_tap(tap, true), Err(QueueError::Empty)));
}

#[test]
fn closing_a_queue_closes_its_taps() {
    let mut queue = InMemoryEventQueue::new().unwrap();
    let first = queue.tap();
    let second = queue.tap();
    queue.enqueue_event(hello()).unwrap();
    queue.close(false).unwrap();
    assert!(queue.is_closed());
    assert!(queue.tap_is_closed(first));
    assert!(queue.tap_is_closed(second));
    assert!(matches!(queue.dequeue_tap(first, true), Err(QueueError::Closed)));
    assert_eq!(queue.size(), 1);
    assert!(matches!(queue.enqueue_event(hello()), Err(QueueError::Closed)));
    queue.close(true).unwrap();
    assert_eq!(queue.size(), 1);
}
