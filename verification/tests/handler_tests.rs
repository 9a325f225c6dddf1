use a2a_rust::core_types::{Message, Part, PartRoot, Role, TaskState};
use a2a_rust::error::{A2AError, INTERNAL_ERROR, INVALID_REQUEST, METHOD_NOT_FOUND, TASK_NOT_FOUND, UNSUPPORTED_OPERATION};
use a2a_rust::events::Event;
use a2a_rust::handlers::{
    collect_events, handler_error, sse_frame, stream_response, Dispatch, JSONRPCHandler, MessageSendResult,
    MockRequestHandler, RestHandler,
};
use a2a_rust::json::{JsonNumber, JsonValue};
use a2a_rust::jsonrpc::JSONRPCId;
use a2a_rust::models::{AgentCapabilities, AgentCard, MessageSendParams, TaskIdParams, TaskQueryParams};

fn s(text: &str) -> JsonValue {
    JsonValue::String(text.to_string())
}

fn obj(members: Vec<(&str, JsonValue)>) -> JsonValue {
    JsonValue::Object(members.into_iter().map(|(k, v)| (k.to_string(), v)).collect())
}

fn one() -> JsonValue {
    JsonValue::Number(JsonNumber::PosInt(1))
}

fn card(streaming: bool) -> AgentCard {
    AgentCard::new(
        "Test Agent".to_string(),
        "A test agent".to_string(),
        "http://localhost:8080".to_string(),
        "1.0.0".to_string(),
        vec!["text/plain".to_string()],
        vec!["text/plain".to_string()],
        AgentCapabilities::new().with_streaming(streaming),
        vec![],
    )
}

fn create_test_handler() -> JSONRPCHandler<MockRequestHandler> {
    JSONRPCHandler::new(card(false), MockRequestHandler::new())
}

fn message_request(method: &str, text: Option<&str>) -> JsonValue {
    let parts = match text {
        Some(t) => vec![obj(vec![("kind", s("text")), ("text", s(t))])],
        None => vec![],
    };
    obj(vec![
        ("jsonrpc", s("2.0")),
        ("method", s(method)),
        (
            "params",
            obj(vec![(
                "message",
                obj(vec![
                    ("kind", s("message")),
                    ("messageId", s("test-msg-123")),
                    ("role", s("user")),
                    ("parts", JsonValue::Array(parts)),
                ]),
            )]),
        ),
        ("id", one()),
    ])
}

#[test]
fn test_parse_valid_request() {
    let handler = create_test_handler();
    let request = obj(vec![
        ("jsonrpc", s("2.0")),
        ("method", s("test")),
        ("params", obj(vec![])),
        ("id", one()),
    ]);

    let result = handler.parse_request(&request).unwrap();
    assert_eq!(result.method, "test");
    assert_eq!(result.jsonrpc, "2.0");
}

#[test]
fn test_parse_invalid_request_missing_jsonrpc() {
    let handler = create_test_handler();
    let request = obj(vec![("method", s("test")), ("params", obj(vec![])), ("id", one())]);

    let result = handler.parse_request(&request);
    assert!(result.is_err());
}

#[test]
fn test_parse_invalid_request_missing_method() {
    let handler = create_test_handler();
    let request = obj(vec![("jsonrpc", s("2.0")), ("params", obj(vec![])), ("id", one())]);

    let result = handler.parse_request(&request);
    assert!(result.is_err());
}

#[test]
fn test_handle_unknown_method() {
    let handler = create_test_handler();
    let request = obj(vec![
        ("jsonrpc", s("2.0")),
        ("method", s("unknown_method")),
        ("params", obj(vec![])),
        ("id", one()),
    ]);

    let parsed = handler.parse_request(&request).unwrap();
    let result = handler.dispatch(&parsed);
    assert!(result.is_err());
    let error = result.err().unwrap();
    assert_eq!(error.code, METHOD_NOT_FOUND);
    assert_eq!(error.message, "Method 'unknown_method' not found");
}

#[test]
fn test_handle_message_send() {
    let handler = create_test_handler();
    let request = message_request("message/send", Some("Hello, world!"));

    let parsed = handler.parse_request(&request).unwrap();
    let dispatched = handler.dispatch(&parsed);
    assert!(matches!(dispatched, Ok(Dispatch::MessageSend)));

    let message = Message::new(Role::User, vec![Part::text("Hello, world!".to_string())])
        .with_message_id("test-msg-123".to_string());
    let result = handler.request_handler().on_message_send(MessageSendParams::new(message));
    assert!(result.is_ok());
}

#[test]
fn test_handle_message_stream() {
    let handler = JSONRPCHandler::new(card(true), MockRequestHandler::new());
    let request = message_request("message/stream", Some("Hello, streaming!"));

    let parsed = handler.parse_request(&request).unwrap();
    assert!(matches!(handler.dispatch(&parsed), Ok(Dispatch::MessageStream)));

    let message = Message::new(Role::User, vec![Part::text("Hello, streaming!".to_string())])
        .with_message_id("test-msg-123".to_string());
    let result = handler.request_handler().on_message_send_stream(MessageSendParams::new(message));
    assert!(result.is_ok());

    let events: Vec<Event> = result.unwrap().into_iter().map(|e| e.unwrap()).collect();
    // Working status, the reply, completed status
    assert_eq!(events.len(), 3);

    match &events[0] {
        Event::TaskStatusUpdate(e) => {
            assert_eq!(e.kind, "status-update");
            assert_eq!(e.is_final, false);
        }
        other => panic!("expected a status update, got {:?}", other),
    }
    match &events[1] {
        Event::Message(m) => {
            assert_eq!(m.kind, "message");
            assert_eq!(m.role, Role::Agent);
            match m.parts[0].root() {
                PartRoot::Text(t) => assert_eq!(t.text, "Mock response to: Hello, streaming!"),
                _ => panic!("expected a text part"),
            }
        }
        other => panic!("expected a message, got {:?}", other),
    }
    match &events[2] {
        Event::TaskStatusUpdate(e) => {
            assert_eq!(e.kind, "status-update");
            assert_eq!(e.is_final, true);
            assert_eq!(e.status.state, TaskState::Completed);
        }
        other => panic!("expected a status update, got {:?}", other),
    }
}

#[test]
fn test_handle_message_stream_not_supported() {
    let handler = JSONRPCHandler::new(card(false), MockRequestHandler::new());
    let request = message_request("message/stream", None);

    let parsed = handler.parse_request(&request).unwrap();
    let result = handler.dispatch(&parsed);
    assert!(result.is_err());

    let error = result.err().unwrap();
    assert_eq!(error.code, -32600);
    assert!(error.message.contains("Streaming is not supported"));
}

#[test]
fn test_mock_request_handler() {
    let handler = MockRequestHandler;

    let params = TaskQueryParams { id: "test-task".to_string(), history_length: None, metadata: None };

    let result = handler.on_get_task(params);
    assert!(result.is_ok());
    assert!(result.unwrap().is_none());
}

#[test]
fn mock_send_echoes_message() {
    let handler = MockRequestHandler::new();
    let message = Message::new(Role::User, vec![Part::text("ping".to_string())]);
    match handler.on_message_send(MessageSendParams::new(message)).unwrap() {
        MessageSendResult::Message(m) => assert_eq!(m.role, Role::User),
        other => panic!("expected the message back, got {:?}", other),
    }
    assert!(handler.on_cancel_task(TaskIdParams::new("t".to_string())).unwrap().is_none());
}

#[test]
fn acknowledged_methods_answer_with_text() {
    let handler = create_test_handler();
    let request = obj(vec![("jsonrpc", s("2.0")), ("method", s("tasks/get")), ("params", obj(vec![])), ("id", one())]);
    let parsed = handler.parse_request(&request).unwrap();
    match handler.dispatch(&parsed) {
        Ok(Dispatch::Acknowledge(v)) => {
            assert_eq!(v.get("result").unwrap().as_str(), Some("tasks/get handled"));
            assert_eq!(v.get("jsonrpc").unwrap().as_str(), Some("2.0"));
            assert_eq!(v.get("id").unwrap().as_i64(), Some(1));
        }
        _ => panic!("expected an acknowledgement"),
    }
}

#[test]
fn push_config_set_needs_capability() {
    let handler = create_test_handler();
    let request = obj(vec![
        ("jsonrpc", s("2.0")),
        ("method", s("tasks/pushNotificationConfig/set")),
        ("params", obj(vec![])),
        ("id", one()),
    ]);
    let parsed = handler.parse_request(&request).unwrap();
    let error = handler.dispatch(&parsed).err().unwrap();
    assert_eq!(error.code, INVALID_REQUEST);
    assert_eq!(error.message, "Push notifications are not supported by this agent");
}

#[test]
fn missing_params_are_refused() {
    let handler = create_test_handler();
    let request = a2a_rust::jsonrpc::JSONRPCRequest {
        jsonrpc: "2.0".to_string(),
        method: "message/send".to_string(),
        params: None,
        id: Some(JSONRPCId::Number(3)),
    };
    let error = handler.params(&request).err().unwrap();
    assert_eq!(error.message, "Missing params field");
}

#[test]
fn collected_stream_reports_first_failure() {
    let results = vec![Ok(s("a")), Err(A2AError::internal("boom")), Err(A2AError::internal("later"))];
    let error = collect_events(results).err().unwrap();
    assert_eq!(error.code, INTERNAL_ERROR);
    assert_eq!(error.message, "Event stream error: boom");

    let events = collect_events(vec![Ok(s("a")), Ok(s("b"))]).unwrap();
    assert_eq!(events.len(), 2);
    let response = stream_response(events, &Some(JSONRPCId::String("req".to_string())));
    let result = response.get("result").unwrap();
    assert_eq!(result.get("stream").unwrap().as_str(), Some("completed"));
    assert_eq!(response.get("id").unwrap().as_str(), Some("req"));
}

#[test]
fn handler_error_prefixes_message() {
    let e = handler_error(&A2AError::invalid_params("bad"));
    assert_eq!(e.code, INTERNAL_ERROR);
    assert_eq!(e.message, "Handler error: bad");
}

#[test]
fn sse_frames_end_with_blank_line() {
    assert_eq!(sse_frame("{\"a\":1}"), "data: {\"a\":1}\n\n");
}

#[test]
fn rest_handler_checks_capabilities() {
    let handler = RestHandler::new(card(false), MockRequestHandler::new());
    let e = handler.ensure_streaming_supported().err().unwrap();
    assert_eq!(e.code, UNSUPPORTED_OPERATION);
    assert_eq!(e.message, "Streaming is not supported by the agent");
    assert!(handler.ensure_push_supported().is_err());

    let handler = RestHandler::new(card(true), MockRequestHandler::new());
    assert!(handler.ensure_streaming_supported().is_ok());
}

#[test]
fn rest_missing_task_is_not_found() {
    let handler = RestHandler::new(card(false), MockRequestHandler::new());
    let outcome = handler.task_outcome(handler.request_handler().on_get_task(TaskQueryParams {
        id: "x".to_string(),
        history_length: None,
        metadata: None,
    }));
    let e = outcome.err().unwrap();
    assert_eq!(e.code, TASK_NOT_FOUND);
    assert_eq!(e.message, "Task not found");
    let e = handler.list_tasks().err().unwrap();
    assert_eq!(e.message, "list tasks not implemented");
}
