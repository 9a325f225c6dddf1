use a2a_rust::core_types::{part_layout, Message, Part, Role, TaskState, TaskStatus, TransportProtocol};
use a2a_rust::error::{A2AError, TaskNotFoundError, INVALID_REQUEST, PARSE_ERROR};
use a2a_rust::json::{JsonNumber, JsonValue, Metadata};
use a2a_rust::jsonrpc::{
    create_jsonrpc_request, error_response, jsonrpc_request_with_id, jsonrpc_result, parse_jsonrpc_response,
    parse_request, success_response, JSONRPCError, JSONRPCId, JsonRpcReply,
};
use a2a_rust::models::{
    AgentCapabilities, AgentCard, MessageSendParams, PushNotificationConfig, SendStreamingMessageResult, Task,
    TaskOrMessage, TaskStatusUpdateEvent,
};
use a2a_rust::proto::{
    push_config_resource_name, send_message_outcome, send_message_request, task_resource_name, SendMessageResponse,
};
use a2a_rust::push_store::{config_id_for, SqlitePushNotificationConfigStore};
use a2a_rust::server::{
    invalid_json_error, is_streaming_request, parse_usize, payload_too_large, request_id, A2AServer,
    A2AServerBuilder, RouteKind, ServerConfig, DEFAULT_MAX_CONTENT_LENGTH,
};
use a2a_rust::sse::{sse_event_data, SseBuffer};
use a2a_rust::transport::{
    cancel_endpoint, convert_streaming_result, extension_header_value, http_method, is_event_stream, jsonrpc_status_error,
    push_config_endpoint, rest_http_error, rest_status_error, task_endpoint, timeout_secs, HttpMethod, JsonRpcTransport,
};

fn jstr(text: &str) -> JsonValue {
    JsonValue::String(text.to_string())
}

fn jobj(members: Vec<(&str, JsonValue)>) -> JsonValue {
    JsonValue::Object(members.into_iter().map(|(k, v)| (k.to_string(), v)).collect())
}

fn card(extended: bool) -> AgentCard {
    let c = AgentCard::new(
        "Test Agent".to_string(),
        "A test agent".to_string(),
        "http://localhost:8080".to_string(),
        "1.0.0".to_string(),
        vec![],
        vec![],
        AgentCapabilities::new(),
        vec![],
    );
    if extended {
        c.with_supports_authenticated_extended_card(true)
    } else {
        c
    }
}

#[test]
fn transport_protocol_parses_any_case() {
    assert_eq!(TransportProtocol::from_str("grpc"), Ok(TransportProtocol::Grpc));
    assert_eq!(TransportProtocol::from_str("JsonRpc"), Ok(TransportProtocol::Jsonrpc));
    assert_eq!(TransportProtocol::from_str("http_json"), Ok(TransportProtocol::HttpJson));
    assert_eq!(TransportProtocol::from_str("smtp"), Err("Unknown transport protocol: smtp".to_string()));
    assert_eq!(TransportProtocol::Grpc.to_string(), "GRPC");
}

#[test]
fn error_codes() {
    assert_eq!(A2AError::internal("x").code(), -32603);
    assert_eq!(A2AError::invalid_params("x").code(), -32602);
    assert_eq!(A2AError::invalid_request("x").code(), -32600);
    assert_eq!(A2AError::push_notification_not_supported().code(), -32003);
    assert_eq!(A2AError::push_notification_not_supported().message(), "Push Notification is not supported");
    assert_eq!(A2AError::invalid_response("x").code(), -32006);
    assert_eq!(A2AError::unsupported_operation("x").code(), -32004);
}

#[test]
fn request_round_trip() {
    let params = jobj(vec![("id", jstr("t1"))]);
    let request = jsonrpc_request_with_id("tasks/get", params, "req-1".to_string());
    let parsed = parse_request(&request).unwrap();
    assert_eq!(parsed.method, "tasks/get");
    assert_eq!(parsed.jsonrpc, "2.0");
    assert_eq!(parsed.params.unwrap().get("id").unwrap().as_str(), Some("t1"));
    match parsed.id {
        Some(JSONRPCId::String(id)) => assert_eq!(id, "req-1"),
        other => panic!("unexpected id {:?}", other),
    }
}

#[test]
fn created_requests_have_random_ids() {
    let a = create_jsonrpc_request("message/send", JsonValue::Null);
    let b = create_jsonrpc_request("message/send", JsonValue::Null);
    assert_eq!(a.get("method").unwrap().as_str(), Some("message/send"));
    assert_eq!(a.get("jsonrpc").unwrap().as_str(), Some("2.0"));
    let ida = a.get("id").unwrap().as_str().unwrap().to_string();
    let idb = b.get("id").unwrap().as_str().unwrap().to_string();
    assert_eq!(ida.len(), 36);
    assert_ne!(ida, idb);
}

#[test]
fn invalid_version_is_refused() {
    let request = jobj(vec![("jsonrpc", jstr("1.0")), ("method", jstr("x"))]);
    let e = parse_request(&request).err().unwrap();
    assert_eq!(e.code, INVALID_REQUEST);
    assert_eq!(e.message, "Invalid or missing 'jsonrpc' version field");

    let request = jobj(vec![("jsonrpc", jstr("2.0")), ("method", JsonValue::Bool(true))]);
    let e = parse_request(&request).err().unwrap();
    assert_eq!(e.message, "Missing 'method' field");
}

#[test]
fn success_round_trip() {
    let response = success_response(jstr("ok"), &Some(JSONRPCId::Number(7)));
    match parse_jsonrpc_response(&response).unwrap() {
        JsonRpcReply::Success(v) => assert_eq!(v.as_str(), Some("ok")),
        other => panic!("unexpected {:?}", other),
    }
    assert_eq!(response.get("id").unwrap().as_i64(), Some(7));
    assert_eq!(jsonrpc_result(&response).unwrap().as_str(), Some("ok"));
}

#[test]
fn error_round_trip() {
    let error = JSONRPCError::new(-32001, "Task not found".to_string());
    let response = error_response(&None, &error);
    match parse_jsonrpc_response(&response).unwrap() {
        JsonRpcReply::Error { code, message } => {
            assert_eq!(code, -32001);
            assert_eq!(message, "Task not found");
        }
        other => panic!("unexpected {:?}", other),
    }
    match jsonrpc_result(&response) {
        Err(A2AError::JsonRpc { code, message }) => {
            assert_eq!(code, -32001);
            assert_eq!(message, "Task not found");
        }
        other => panic!("unexpected {:?}", other),
    }
    assert!(matches!(response.get("id"), Some(JsonValue::Null)));
}

#[test]
fn response_without_result_is_refused() {
    let response = jobj(vec![("jsonrpc", jstr("2.0")), ("id", JsonValue::Null)]);
    match parse_jsonrpc_response(&response) {
        Err(A2AError::JsonParse(m)) => assert_eq!(m, "Invalid JSON-RPC response: missing result or error"),
        other => panic!("unexpected {:?}", other),
    }
}

#[test]
fn sse_parser_handles_chunked_messages() {
    let mut buffer = SseBuffer::new();
    let first = buffer.push_chunk("data: {\"kind\":\"status-update\"}\n");
    assert!(first.is_empty());
    let second = buffer.push_chunk("\ndata: {\"kind\"");
    assert_eq!(second, vec!["data: {\"kind\":\"status-update\"}".to_string()]);
    let third = buffer.push_chunk(":\"message\"}\n\n\n\n");
    assert_eq!(third, vec!["data: {\"kind\":\"message\"}".to_string()]);
    assert_eq!(buffer.finish(), None);
}

#[test]
fn sse_buffer_keeps_unfinished_message() {
    let mut buffer = SseBuffer::new();
    assert!(buffer.push_chunk("data: tail").is_empty());
    assert_eq!(buffer.finish(), Some("data: tail".to_string()));
}

#[test]
fn sse_data_joins_data_lines() {
    assert_eq!(sse_event_data("event: update\ndata: hello\ndata:world"), Some("hello\nworld".to_string()));
    assert_eq!(sse_event_data(": comment only"), None);
    assert_eq!(sse_event_data("data:   "), None);
}

#[test]
fn rest_errors_map_status() {
    match rest_status_error(404, "/tasks/abc", "missing") {
        A2AError::TaskNotFound(e) => assert_eq!(e.message, "Task not found"),
        other => panic!("unexpected {:?}", other),
    }
    match rest_status_error(404, "/message/send", "missing") {
        A2AError::Http { status, message } => {
            assert_eq!(status, 404);
            assert_eq!(message, "HTTP error 404: missing");
        }
        other => panic!("unexpected {:?}", other),
    }
    match rest_status_error(500, "/tasks/abc", "boom") {
        A2AError::Http { status, message } => {
            assert_eq!(status, 500);
            assert_eq!(message, "HTTP error 500: boom");
        }
        other => panic!("unexpected {:?}", other),
    }
}

#[test]
fn rest_endpoints() {
    assert_eq!(task_endpoint("t1", None), "/tasks/t1");
    assert_eq!(task_endpoint("t1", Some(10)), "/tasks/t1?history_length=10");
    assert_eq!(task_endpoint("t1", Some(-3)), "/tasks/t1?history_length=-3");
    assert_eq!(cancel_endpoint("t1"), "/tasks/t1/cancel");
    assert_eq!(push_config_endpoint("t1", None), "/tasks/t1/push_notifications");
    assert_eq!(push_config_endpoint("t1", Some("c1")), "/tasks/t1/push_notifications/c1");
}

#[test]
fn http_methods() {
    assert!(matches!(http_method("GET"), Ok(HttpMethod::Get)));
    assert!(matches!(http_method("DELETE"), Ok(HttpMethod::Delete)));
    match http_method("PATCH") {
        Err(A2AError::InvalidRequest(m)) => assert_eq!(m, "Unsupported HTTP method"),
        _ => panic!("PATCH should be refused"),
    }
}

#[test]
fn extension_header_prefers_call_extensions() {
    let configured = vec!["a".to_string(), "b".to_string()];
    assert_eq!(extension_header_value(None, &configured), Some("a,b".to_string()));
    let call = vec!["c".to_string()];
    assert_eq!(extension_header_value(Some(&call), &configured), Some("c".to_string()));
    assert_eq!(extension_header_value(None, &vec![]), None);
}

#[test]
fn event_stream_content_type() {
    assert!(is_event_stream("text/event-stream; charset=utf-8"));
    assert!(!is_event_stream("application/json"));
}

#[test]
fn timeout_from_http_arguments() {
    let mut kwargs = Metadata::new();
    assert_eq!(timeout_secs(&kwargs), None);
    kwargs.insert("timeout".to_string(), JsonValue::Number(JsonNumber::PosInt(5)));
    assert_eq!(timeout_secs(&kwargs), Some(5));
}

#[test]
fn transport_keeps_url_and_extensions() {
    let t = JsonRpcTransport::<()>::new("http://localhost:8080".to_string(), None)
        .unwrap()
        .with_extensions(vec!["ext".to_string()]);
    assert_eq!(t.url(), "http://localhost:8080");
    assert_eq!(t.extensions(), &vec!["ext".to_string()]);
    assert!(t.agent_card().is_none());
}

#[test]
fn streaming_results_convert() {
    let update = TaskStatusUpdateEvent {
        task_id: "t".to_string(),
        context_id: "c".to_string(),
        status: TaskStatus::new(TaskState::Working),
        is_final: false,
        metadata: None,
        kind: "status-update".to_string(),
    };
    assert!(matches!(
        convert_streaming_result(SendStreamingMessageResult::TaskStatusUpdateEvent(update)),
        TaskOrMessage::TaskUpdate(_)
    ));
}

#[test]
fn content_length_limits() {
    assert!(payload_too_large(Some(10), Some("11")));
    assert!(!payload_too_large(Some(10), Some("10")));
    assert!(!payload_too_large(Some(10), Some("abc")));
    assert!(!payload_too_large(None, Some("99999999")));
    assert!(payload_too_large(Some(DEFAULT_MAX_CONTENT_LENGTH), Some("10485761")));
    assert_eq!(parse_usize("42"), Some(42));
    assert_eq!(parse_usize("+7"), Some(7));
    assert_eq!(parse_usize(""), None);
    assert_eq!(parse_usize("4x"), None);
}

#[test]
fn server_request_helpers() {
    let request = jobj(vec![("jsonrpc", jstr("2.0")), ("method", jstr("message/stream")), ("id", jstr("r1"))]);
    assert!(is_streaming_request(&request));
    match request_id(&request) {
        Some(JSONRPCId::String(id)) => assert_eq!(id, "r1"),
        other => panic!("unexpected {:?}", other),
    }
    let e = invalid_json_error("EOF");
    assert_eq!(e.code, PARSE_ERROR);
    assert_eq!(e.message, "Invalid JSON: EOF");
}

#[test]
fn default_server_config() {
    let config = ServerConfig::default();
    assert_eq!(config.bind_addr, "127.0.0.1:8080");
    assert_eq!(config.agent_card_path, "/.well-known/agent-card.json");
    assert_eq!(config.rpc_path, "/");
    assert_eq!(config.max_content_length, Some(10485760));
    assert!(config.enable_cors);
}

#[test]
fn server_routes_follow_card() {
    let server = A2AServer::new(card(false), (), ());
    let routes = server.routes();
    let paths: Vec<&str> = routes.iter().map(|(p, _)| p.as_str()).collect();
    assert_eq!(paths, vec!["/.well-known/agent-card.json", "/", "/.well-known/agent.json"]);
    assert!(server.extended_card().is_err());

    let server = A2AServer::new(card(true), (), ()).with_extended_agent_card(card(false));
    let routes = server.routes();
    assert_eq!(routes.len(), 4);
    assert_eq!(routes[2].0, "/agent/authenticatedExtendedCard");
    assert!(matches!(routes[2].1, RouteKind::ExtendedCard));
    assert!(server.extended_card().is_ok());
}

#[test]
fn builder_reports_missing_parts() {
    match A2AServerBuilder::<(), ()>::new().build() {
        Err(m) => assert_eq!(m, "Agent card is required"),
        Ok(_) => panic!("expected an error"),
    }
    match A2AServerBuilder::<(), ()>::new().with_agent_card(card(false)).build() {
        Err(m) => assert_eq!(m, "Request handler is required"),
        Ok(_) => panic!("expected an error"),
    }
    match A2AServerBuilder::<(), ()>::new().with_agent_card(card(false)).with_request_handler(()).build() {
        Err(m) => assert_eq!(m, "Context builder is required"),
        Ok(_) => panic!("expected an error"),
    }
    let built = A2AServerBuilder::<(), ()>::new()
        .with_agent_card(card(false))
        .with_request_handler(())
        .with_context_builder(())
        .build();
    assert!(built.is_ok());
}

#[test]
fn grpc_resource_names() {
    assert_eq!(task_resource_name("t1"), "tasks/t1");
    assert_eq!(push_config_resource_name("t1", None), "tasks/t1/pushNotificationConfigs/default");
    assert_eq!(push_config_resource_name("t1", Some("c")), "tasks/t1/pushNotificationConfigs/c");
}

#[test]
fn grpc_send_message_outcome() {
    let message = Message::new(Role::User, vec![Part::text("hi".to_string())]);
    let request = send_message_request(&MessageSendParams::new(message.clone()));
    assert_eq!(request.request.unwrap().message_id, message.message_id);

    let task = Task::new("ctx".to_string(), TaskStatus::new(TaskState::Working));
    let id = task.id.clone();
    match send_message_outcome(SendMessageResponse { task: Some(task), msg: Some(message) }) {
        Ok(TaskOrMessage::Task(t)) => assert_eq!(t.id, id),
        other => panic!("unexpected {:?}", other),
    }
    match send_message_outcome(SendMessageResponse { task: None, msg: None }) {
        Err(A2AError::InvalidAgentResponse(m)) => assert_eq!(m, "SendMessageResponse missing both task and msg"),
        other => panic!("unexpected {:?}", other),
    }
}

#[test]
fn test_sqlite_push_config_store_encrypted() {
    let key = [0u8; 32];
    let store = SqlitePushNotificationConfigStore::new((), Some(key));

    let config = PushNotificationConfig::new("https://example.com/callback".to_string());
    let mut fields = serde_json::Map::new();
    fields.insert("url".to_string(), serde_json::Value::String(config.url.clone()));
    let plain = serde_json::to_vec(&serde_json::Value::Object(fields)).unwrap();

    let sealed = store.encrypt(&plain).unwrap();
    assert_ne!(sealed, plain);
    assert!(serde_json::from_slice::<serde_json::Value>(&sealed).is_err());
    assert_eq!(store.decrypt(&sealed).unwrap(), plain);
    assert_eq!(store.row_plaintext(&sealed), plain);
    // What is stored reads back as the configuration, with its URL.
    let read_back: serde_json::Value = serde_json::from_slice(&store.row_plaintext(&sealed)).unwrap();
    assert_eq!(read_back["url"], "https://example.com/callback");
    // Rows written before encryption are read as they are.
    assert_eq!(store.row_plaintext(&plain), plain);
    assert_eq!(config_id_for("task-123", &config), "task-123");
    assert_eq!(store.select_sql(), "SELECT config_data FROM push_notification_configs WHERE task_id = ?");
}

#[test]
fn plain_store_keeps_bytes() {
    let store = SqlitePushNotificationConfigStore::new((), None);
    let data = b"abc".to_vec();
    assert_eq!(store.encrypt(&data).unwrap(), data);
    assert_eq!(store.decrypt(&data).unwrap(), data);
    assert_eq!(store.delete_sql(true), "DELETE FROM push_notification_configs WHERE task_id = ? AND config_id = ?");
}

#[test]
fn wrong_key_cannot_open() {
    let a = SqlitePushNotificationConfigStore::new((), Some([1u8; 32]));
    let b = SqlitePushNotificationConfigStore::new((), Some([2u8; 32]));
    let sealed = a.encrypt(b"secret").unwrap();
    match b.decrypt(&sealed) {
        Err(A2AError::Internal(m)) => assert!(m.starts_with("Decryption failed: ")),
        other => panic!("unexpected {:?}", other),
    }
}

#[test]
fn jsonrpc_status_errors_name_the_status() {
    match jsonrpc_status_error(404) {
        A2AError::Http { status, message } => {
            assert_eq!(status, 404);
            assert_eq!(message, "HTTP error: 404 Not Found");
        }
        other => panic!("unexpected {:?}", other),
    }
}

#[test]
fn every_error_kind_has_its_code() {
    let cases: Vec<(A2AError, i32)> = vec![
        (A2AError::JsonParse("x".to_string()), -32700),
        (A2AError::InvalidRequest("x".to_string()), -32600),
        (A2AError::MethodNotFound("x".to_string()), -32601),
        (A2AError::InvalidParams("x".to_string()), -32602),
        (A2AError::Internal("x".to_string()), -32603),
        (A2AError::TaskNotFound(TaskNotFoundError { message: "x".to_string() }), -32001),
        (A2AError::TaskNotCancelable("x".to_string()), -32002),
        (A2AError::PushNotificationNotSupported("x".to_string()), -32003),
        (A2AError::UnsupportedOperation("x".to_string()), -32004),
        (A2AError::ContentTypeNotSupported("x".to_string()), -32005),
        (A2AError::InvalidAgentResponse("x".to_string()), -32006),
        (A2AError::JsonRpc { code: 42, message: "x".to_string() }, 42),
        (A2AError::Http { status: 500, message: "x".to_string() }, -32603),
    ];
    for (error, code) in cases {
        assert_eq!(error.code(), code);
        assert_eq!(error.message(), "x");
    }
}

#[test]
fn part_layouts() {
    let direct = jobj(vec![("kind", jstr("text")), ("text", jstr("hi"))]);
    assert!(matches!(part_layout(&direct), Ok(None)));
    let inner = jobj(vec![("kind", jstr("text")), ("text", jstr("hi"))]);
    let wrapped = jobj(vec![("root", inner)]);
    match part_layout(&wrapped) {
        Ok(Some(v)) => assert_eq!(v.get("text").unwrap().as_str(), Some("hi")),
        _ => panic!("expected the wrapped content"),
    }
    let extra = jobj(vec![("root", jobj(vec![])), ("x", JsonValue::Null)]);
    assert_eq!(part_layout(&extra).err(), Some("unexpected additional fields after 'root'".to_string()));
    assert_eq!(part_layout(&jobj(vec![])).err(), Some("empty object".to_string()));
    assert!(part_layout(&jstr("text")).is_err());
}

#[test]
fn middleware_needs_a_card() {
    let t = JsonRpcTransport::<()>::new("http://localhost:8080".to_string(), None).unwrap();
    match t.interceptor_card() {
        Err(A2AError::InvalidRequest(m)) => assert_eq!(m, "No agent card available for interceptors"),
        _ => panic!("expected a refusal"),
    }
    let t = JsonRpcTransport::<()>::new("http://localhost:8080".to_string(), Some(card(false))).unwrap();
    assert_eq!(t.interceptor_card().unwrap().name, "Test Agent");
}

#[test]
fn streaming_http_errors_keep_their_status() {
    match rest_http_error(404, "Unknown error") {
        A2AError::Http { status, message } => {
            assert_eq!(status, 404);
            assert_eq!(message, "HTTP error 404: Unknown error");
        }
        other => panic!("unexpected {:?}", other),
    }
}

#[test]
fn generated_ids_are_canonical_uuid_text() {
    let m = Message::new(Role::User, vec![Part::text("hi".to_string())]);
    assert_eq!(m.message_id.len(), 36);
    assert_eq!(m.message_id.matches('-').count(), 4);
    assert_eq!(m.message_id, m.message_id.to_lowercase());
}
