//! The server side of requests: the results a request handler gives, a mock
//! handler, and the decisions of the JSON-RPC and REST front ends (which
//! method a request names, what the agent supports, how errors and results
//! are framed).

use vstd::prelude::*;
use vstd::string::*;
use crate::core_types::{Message, MessageData, Part, PartData, PartRoot, Role, TaskState, TaskStatus};
use crate::error::{A2AError, TaskNotFoundError, INTERNAL_ERROR, INVALID_PARAMS, INVALID_REQUEST, METHOD_NOT_FOUND};
use crate::events::{Event, EventData};
use crate::json::{JsonData, JsonValue};
use crate::jsonrpc::{JSONRPCError, JSONRPCId, JSONRPCRequest, IdData, success_json, success_response};
use crate::models::{
    AgentCard, MessageSendParams, SendStreamingMessageResult, Task, TaskIdParams, TaskPushNotificationConfig,
    TaskQueryParams, TaskStatusUpdateEvent, DeleteTaskPushNotificationConfigParams,
};
use crate::text::{owned, str_eq, concat2, concat3};

verus! {

/// What sending a message yields: a task or a direct reply.
#[derive(Debug)]
pub enum MessageSendResult {
    Task(Task),
    Message(Message),
}

/// The parameters of a query for a task's push notification configuration.
pub struct TaskPushNotificationConfigQueryParams {
    pub task_id: String,
    pub push_notification_config_id: Option<String>,
    pub metadata: Option<JsonValue>,
}

/// The id of the task the mock handler reports.
pub open spec fn mock_task_id() -> Seq<char> {
    "mock-task-123"@
}

/// The text the mock handler answers a message with: "Mock response to: "
/// and the text of the message's first part, or "your message" when that
/// part is not text.
pub open spec fn mock_reply_text(m: MessageData) -> Seq<char> {
    "Mock response to: "@ + if m.parts.len() > 0 && m.parts[0].root is Text {
        m.parts[0].root->Text_0.text
    } else {
        "your message"@
    }
}

/// A request handler for tests: it knows no tasks, echoes messages, and
/// streams a fixed exchange.
pub struct MockRequestHandler;

impl MockRequestHandler {
    /// The mock handler.
    pub fn new() -> (r: Self) {
        MockRequestHandler
    }

    /// No task is known.
    pub fn on_get_task(&self, params: TaskQueryParams) -> (r: Result<Option<Task>, A2AError>)
        ensures
            r matches Ok(None),
    {
        Ok(None)
    }

    /// No task is known.
    pub fn on_cancel_task(&self, params: TaskIdParams) -> (r: Result<Option<Task>, A2AError>)
        ensures
            r matches Ok(None),
    {
        Ok(None)
    }

    /// The message is sent back as the reply.
    pub fn on_message_send(&self, params: MessageSendParams) -> (r: Result<MessageSendResult, A2AError>)
        ensures
            r matches Ok(MessageSendResult::Message(m)) && m == params.message,
    {
        Ok(MessageSendResult::Message(params.message))
    }

    /// The exchange streamed for a message: the mock task is working, a
    /// reply from the agent, and the mock task is completed (the last
    /// event). The context is the message's, or "mock-context".
    pub fn on_message_send_stream(&self, params: MessageSendParams) -> (r: Result<Vec<Result<Event, A2AError>>, A2AError>)
        ensures
            r matches Ok(v) && v@.len() == 3 && {
                let m = params.message.deep_view();
                let ctx = match m.context_id {
                    Some(c) => c,
                    None => "mock-context"@,
                };
                &&& v@[0] matches Ok(Event::TaskStatusUpdate(e)) && e.task_id@ == mock_task_id()
                    && e.context_id@ == ctx && e.status.state == TaskState::Working && e.status.message is None
                    && !e.is_final && e.metadata is None && e.kind@ == "status-update"@
                &&& v@[1] matches Ok(Event::Message(x)) && x.message_id@ == "response-"@ + m.message_id
                    && x.context_id.deep_view() == m.context_id && x.task_id.deep_view() == Some(mock_task_id())
                    && x.role == Role::Agent && x.parts@.len() == 1 && x.parts@[0].deep_view().root
                    == PartData::Text(crate::core_types::TextPartData { text: mock_reply_text(m), kind: "text"@, metadata: None })
                    && x.metadata is None && x.extensions is None && x.reference_task_ids is None
                    && x.kind@ == "message"@
                &&& v@[2] matches Ok(Event::TaskStatusUpdate(e)) && e.task_id@ == mock_task_id()
                    && e.context_id@ == ctx && e.status.state == TaskState::Completed && e.status.message is None
                    && e.is_final && e.metadata is None && e.kind@ == "status-update"@
            },
    {
        let message = &params.message;
        let ctx = match &message.context_id {
            Some(c) => c.clone(),
            None => owned("mock-context"),
        };
        let working = TaskStatusUpdateEvent {
            task_id: owned("mock-task-123"),
            context_id: ctx.clone(),
            status: TaskStatus::new(TaskState::Working),
            is_final: false,
            metadata: None,
            kind: owned("status-update"),
        };
        let first_text = if message.parts.len() > 0 {
            match message.parts[0].root() {
                PartRoot::Text(t) => t.text.clone(),
                _ => owned("your message"),
            }
        } else {
            owned("your message")
        };
        let reply_text = concat2("Mock response to: ", first_text.as_str());
        let reply = Message {
            message_id: concat2("response-", message.message_id.as_str()),
            context_id: match &message.context_id {
                Some(c) => Some(c.clone()),
                None => None,
            },
            task_id: Some(owned("mock-task-123")),
            role: Role::Agent,
            parts: vec![Part::text(reply_text)],
            metadata: None,
            extensions: None,
            reference_task_ids: None,
            kind: owned("message"),
        };
        let completed = TaskStatusUpdateEvent {
            task_id: owned("mock-task-123"),
            context_id: ctx,
            status: TaskStatus::new(TaskState::Completed),
            is_final: true,
            metadata: None,
            kind: owned("status-update"),
        };
        Ok(vec![Ok(Event::TaskStatusUpdate(working)), Ok(Event::Message(reply)), Ok(Event::TaskStatusUpdate(completed))])
    }

    /// Not implemented: refused.
    pub fn on_set_task_push_notification_config(&self, params: TaskPushNotificationConfig) -> (r: Result<
        TaskPushNotificationConfig,
        A2AError,
    >)
        ensures
            r matches Err(A2AError::UnsupportedOperation(m)) && m@ == "Not implemented"@,
    {
        Err(A2AError::unsupported_operation("Not implemented"))
    }

    /// Not implemented: refused.
    pub fn on_get_task_push_notification_config(&self, params: TaskPushNotificationConfigQueryParams) -> (r: Result<
        TaskPushNotificationConfig,
        A2AError,
    >)
        ensures
            r matches Err(A2AError::UnsupportedOperation(m)) && m@ == "Not implemented"@,
    {
        Err(A2AError::unsupported_operation("Not implemented"))
    }

    /// No configuration is known.
    pub fn on_list_task_push_notification_config(&self, params: TaskIdParams) -> (r: Result<
        Vec<TaskPushNotificationConfig>,
        A2AError,
    >)
        ensures
            r matches Ok(v) && v@.len() == 0,
    {
        Ok(Vec::new())
    }

    /// Nothing to delete.
    pub fn on_delete_task_push_notification_config(&self, params: DeleteTaskPushNotificationConfigParams) -> (r: Result<
        (),
        A2AError,
    >)
        ensures
            r is Ok,
    {
        Ok(())
    }
}

/// The refusal of a handler that does not stream.
pub fn streaming_not_supported() -> (r: A2AError)
    ensures
        r matches A2AError::UnsupportedOperation(m) && m@ == "Streaming is not supported"@,
{
    A2AError::unsupported_operation("Streaming is not supported")
}

/// The refusal of a handler that does not resubscribe.
pub fn resubscription_not_supported() -> (r: A2AError)
    ensures
        r matches A2AError::UnsupportedOperation(m) && m@ == "Resubscription is not supported"@,
{
    A2AError::unsupported_operation("Resubscription is not supported")
}

/// The JSON-RPC methods of the protocol.
pub enum JsonRpcMethod {
    MessageSend,
    MessageStream,
    GetTask,
    CancelTask,
    SetPushConfig,
    GetPushConfig,
    ListPushConfig,
    DeletePushConfig,
    Resubscribe,
    ExtendedCard,
}

/// The method a name denotes.
pub open spec fn method_of(name: Seq<char>) -> Option<JsonRpcMethod> {
    if name == "message/send"@ {
        Some(JsonRpcMethod::MessageSend)
    } else if name == "message/stream"@ {
        Some(JsonRpcMethod::MessageStream)
    } else if name == "tasks/get"@ {
        Some(JsonRpcMethod::GetTask)
    } else if name == "tasks/cancel"@ {
        Some(JsonRpcMethod::CancelTask)
    } else if name == "tasks/pushNotificationConfig/set"@ {
        Some(JsonRpcMethod::SetPushConfig)
    } else if name == "tasks/pushNotificationConfig/get"@ {
        Some(JsonRpcMethod::GetPushConfig)
    } else if name == "tasks/pushNotificationConfig/list"@ {
        Some(JsonRpcMethod::ListPushConfig)
    } else if name == "tasks/pushNotificationConfig/delete"@ {
        Some(JsonRpcMethod::DeletePushConfig)
    } else if name == "tasks/resubscribe"@ {
        Some(JsonRpcMethod::Resubscribe)
    } else if name == "agent/authenticatedExtendedCard"@ {
        Some(JsonRpcMethod::ExtendedCard)
    } else {
        None
    }
}

/// The method named `name`.
pub fn method_named(name: &str) -> (r: Option<JsonRpcMethod>)
    ensures
        r == method_of(name@),
{
    if str_eq(name, "message/send") {
        Some(JsonRpcMethod::MessageSend)
    } else if str_eq(name, "message/stream") {
        Some(JsonRpcMethod::MessageStream)
    } else if str_eq(name, "tasks/get") {
        Some(JsonRpcMethod::GetTask)
    } else if str_eq(name, "tasks/cancel") {
        Some(JsonRpcMethod::CancelTask)
    } else if str_eq(name, "tasks/pushNotificationConfig/set") {
        Some(JsonRpcMethod::SetPushConfig)
    } else if str_eq(name, "tasks/pushNotificationConfig/get") {
        Some(JsonRpcMethod::GetPushConfig)
    } else if str_eq(name, "tasks/pushNotificationConfig/list") {
        Some(JsonRpcMethod::ListPushConfig)
    } else if str_eq(name, "tasks/pushNotificationConfig/delete") {
        Some(JsonRpcMethod::DeletePushConfig)
    } else if str_eq(name, "tasks/resubscribe") {
        Some(JsonRpcMethod::Resubscribe)
    } else if str_eq(name, "agent/authenticatedExtendedCard") {
        Some(JsonRpcMethod::ExtendedCard)
    } else {
        None
    }
}

/// The refusal of a method the agent does not support, if the card rules
/// the method out: streaming, push notifications and the extended card
/// must be declared.
pub open spec fn capability_refusal(card: AgentCard, m: JsonRpcMethod) -> Option<Seq<char>> {
    match m {
        JsonRpcMethod::MessageStream => if card.capabilities.streaming != Some(true) {
            Some("Streaming is not supported by this agent"@)
        } else {
            None
        },
        JsonRpcMethod::SetPushConfig => if card.capabilities.push_notifications != Some(true) {
            Some("Push notifications are not supported by this agent"@)
        } else {
            None
        },
        JsonRpcMethod::ExtendedCard => if card.supports_authenticated_extended_card != Some(true) {
            Some("Authenticated extended card is not supported by this agent"@)
        } else {
            None
        },
        _ => None,
    }
}

/// The text with which the methods that are only acknowledged are
/// answered.
pub open spec fn acknowledgement(m: JsonRpcMethod) -> Option<Seq<char>> {
    match m {
        JsonRpcMethod::GetTask => Some("tasks/get handled"@),
        JsonRpcMethod::CancelTask => Some("tasks/cancel handled"@),
        JsonRpcMethod::SetPushConfig => Some("tasks/pushNotificationConfig/set handled"@),
        JsonRpcMethod::GetPushConfig => Some("tasks/pushNotificationConfig/get handled"@),
        JsonRpcMethod::ListPushConfig => Some("tasks/pushNotificationConfig/list handled"@),
        JsonRpcMethod::DeletePushConfig => Some("tasks/pushNotificationConfig/delete handled"@),
        JsonRpcMethod::Resubscribe => Some("tasks/resubscribe handled"@),
        JsonRpcMethod::ExtendedCard => Some("agent/authenticatedExtendedCard handled"@),
        _ => None,
    }
}

/// What a JSON-RPC request is answered with, as far as the front end
/// decides it: a refusal (code and message), an acknowledgement, or a
/// call of the request handler.
pub enum Dispatch {
    /// Answer with this result.
    Acknowledge(JsonValue),
    /// Hand the request to the handler's message send.
    MessageSend,
    /// Hand the request to the handler's message stream.
    MessageStream,
}

/// Maps JSON-RPC requests to the request handler `H` and frames responses.
pub struct JSONRPCHandler<H> {
    agent_card: AgentCard,
    request_handler: H,
}

impl<H> JSONRPCHandler<H> {
    /// The agent's card.
    pub closed spec fn spec_card(&self) -> AgentCard {
        self.agent_card
    }

    /// The request handler.
    pub closed spec fn spec_handler(&self) -> H {
        self.request_handler
    }

    /// A front end for the agent of `agent_card`.
    pub fn new(agent_card: AgentCard, request_handler: H) -> (r: Self)
        ensures
            r.spec_card() == agent_card,
            r.spec_handler() == request_handler,
    {
        JSONRPCHandler { agent_card, request_handler }
    }

    /// The agent's card.
    pub fn agent_card(&self) -> (r: &AgentCard)
        ensures
            *r == self.spec_card(),
    {
        &self.agent_card
    }

    /// The request handler.
    pub fn request_handler(&self) -> (r: &H)
        ensures
            *r == self.spec_handler(),
    {
        &self.request_handler
    }

    /// Reads a JSON-RPC request (see `crate::jsonrpc::request_outcome`).
    pub fn parse_request(&self, request: &JsonValue) -> (r: Result<JSONRPCRequest, JSONRPCError>)
        ensures
            r is Ok == crate::jsonrpc::request_outcome(request.deep_view()) is Ok,
            r matches Ok(q) ==> crate::jsonrpc::request_outcome(request.deep_view()) == Ok::<_, (i32, Seq<char>)>((
                q.method@,
                q.params->0.deep_view(),
                q.id.deep_view(),
            )) && q.jsonrpc@ == "2.0"@ && q.params is Some,
            r matches Err(e) ==> crate::jsonrpc::request_outcome(request.deep_view()) == Err::<
                (Seq<char>, JsonData, Option<IdData>),
                _,
            >((e.code, e.message@)) && e.data is None,
    {
        crate::jsonrpc::parse_request(request)
    }

    /// What the request is answered with: an unknown method is refused
    /// ("Method '{m}' not found"), a method the card rules out is refused
    /// as an invalid request, a message send or stream goes to the handler,
    /// and the other methods are acknowledged.
    pub fn dispatch(&self, request: &JSONRPCRequest) -> (r: Result<Dispatch, JSONRPCError>)
        ensures
            method_of(request.method@) is None ==> (r matches Err(e) && e.code == METHOD_NOT_FOUND
                && e.message@ == "Method '"@ + request.method@ + "' not found"@),
            method_of(request.method@) matches Some(m) ==> {
                &&& capability_refusal(self.spec_card(), m) matches Some(msg) ==> (r matches Err(e)
                    && e.code == INVALID_REQUEST && e.message@ == msg)
                &&& capability_refusal(self.spec_card(), m) is None ==> {
                    &&& m is MessageSend ==> (r matches Ok(Dispatch::MessageSend))
                    &&& m is MessageStream ==> (r matches Ok(Dispatch::MessageStream))
                    &&& acknowledgement(m) matches Some(text) ==> (r matches Ok(Dispatch::Acknowledge(v))
                        && v.deep_view() == success_json(JsonData::Str(text), request.id.deep_view()))
                }
            },
    {
        let m = match method_named(request.method.as_str()) {
            Some(m) => m,
            None => {
                let msg = concat3("Method '", request.method.as_str(), "' not found");
                return Err(JSONRPCError::new(METHOD_NOT_FOUND, msg));
            },
        };
        let streaming = match self.agent_card.capabilities.streaming {
            Some(b) => b,
            None => false,
        };
        let push = match self.agent_card.capabilities.push_notifications {
            Some(b) => b,
            None => false,
        };
        let extended = match self.agent_card.supports_authenticated_extended_card {
            Some(b) => b,
            None => false,
        };
        let text = match m {
            JsonRpcMethod::MessageSend => return Ok(Dispatch::MessageSend),
            JsonRpcMethod::MessageStream => {
                if !streaming {
                    return Err(JSONRPCError::new(INVALID_REQUEST, owned("Streaming is not supported by this agent")));
                }
                return Ok(Dispatch::MessageStream);
            },
            JsonRpcMethod::GetTask => "tasks/get handled",
            JsonRpcMethod::CancelTask => "tasks/cancel handled",
            JsonRpcMethod::SetPushConfig => {
                if !push {
                    return Err(
                        JSONRPCError::new(INVALID_REQUEST, owned("Push notifications are not supported by this agent")),
                    );
                }
                "tasks/pushNotificationConfig/set handled"
            },
            JsonRpcMethod::GetPushConfig => "tasks/pushNotificationConfig/get handled",
            JsonRpcMethod::ListPushConfig => "tasks/pushNotificationConfig/list handled",
            JsonRpcMethod::DeletePushConfig => "tasks/pushNotificationConfig/delete handled",
            JsonRpcMethod::Resubscribe => "tasks/resubscribe handled",
            JsonRpcMethod::ExtendedCard => {
                if !extended {
                    return Err(
                        JSONRPCError::new(
                            INVALID_REQUEST,
                            owned("Authenticated extended card is not supported by this agent"),
                        ),
                    );
                }
                "agent/authenticatedExtendedCard handled"
            },
        };
        Ok(Dispatch::Acknowledge(success_response(JsonValue::string(text), &request.id)))
    }

    /// The parameters of a request; refused with "Missing params field"
    /// when there are none.
    pub fn params<'a>(&self, request: &'a JSONRPCRequest) -> (r: Result<&'a JsonValue, JSONRPCError>)
        ensures
            request.params matches Some(p) ==> r matches Ok(x) && *x == p,
            request.params is None ==> (r matches Err(e) && e.code == INVALID_PARAMS
                && e.message@ == "Missing params field"@),
    {
        match &request.params {
            Some(p) => Ok(p),
            None => Err(JSONRPCError::new(INVALID_PARAMS, owned("Missing params field"))),
        }
    }
}

/// The error for parameters that do not read as the method's: "Invalid
/// params: {detail}".
pub fn invalid_params(detail: &str) -> (r: JSONRPCError)
    ensures
        r.code == INVALID_PARAMS,
        r.message@ == "Invalid params: "@ + detail@,
{
    JSONRPCError::new(INVALID_PARAMS, concat2("Invalid params: ", detail))
}

/// The error for a failure of the request handler: "Handler error:
/// {message}".
pub fn handler_error(e: &A2AError) -> (r: JSONRPCError)
    ensures
        r.code == INTERNAL_ERROR,
        r.message@ == "Handler error: "@ + e.spec_message(),
{
    JSONRPCError::new(INTERNAL_ERROR, concat2("Handler error: ", e.message()))
}

/// The error for a failure of the event stream: "Event stream error:
/// {message}".
pub fn event_stream_error(e: &A2AError) -> (r: JSONRPCError)
    ensures
        r.code == INTERNAL_ERROR,
        r.message@ == "Event stream error: "@ + e.spec_message(),
{
    JSONRPCError::new(INTERNAL_ERROR, concat2("Event stream error: ", e.message()))
}

/// The events of a stream, or the error for its first failure.
pub fn collect_events(results: Vec<Result<JsonValue, A2AError>>) -> (r: Result<Vec<JsonValue>, JSONRPCError>)
    ensures
        (forall|i: int| 0 <= i < results@.len() ==> results@[i] is Ok) ==> (r matches Ok(v) && v@.len() == results@.len()
            && forall|i: int| 0 <= i < v@.len() ==> #[trigger] v@[i].deep_view() == results@[i]->Ok_0.deep_view()),
        (exists|i: int| 0 <= i < results@.len() && results@[i] is Err) ==> (r matches Err(e) && e.code == INTERNAL_ERROR
            && exists|i: int| #![trigger results@[i]] 0 <= i < results@.len() && results@[i] is Err
                && e.message@ == "Event stream error: "@ + results@[i]->Err_0.spec_message() && forall|j: int| 0 <= j < i ==> results@[j] is Ok),
{
    let mut out: Vec<JsonValue> = Vec::new();
    let mut k: usize = 0;
    while k < results.len()
        invariant
            k <= results@.len(),
            out@.len() == k,
            forall|j: int| 0 <= j < k ==> results@[j] is Ok,
            forall|j: int| 0 <= j < k ==> #[trigger] out@[j].deep_view() == results@[j]->Ok_0.deep_view(),
        decreases results@.len() - k,
    {
        match &results[k] {
            Ok(v) => out.push(v.clone()),
            Err(e) => {
                let err = event_stream_error(e);
                assert(results@[k as int] is Err && err.message@ == "Event stream error: "@ + results@[k as int]->Err_0.spec_message());
                return Err(err);
            },
        }
        k = k + 1;
    }
    Ok(out)
}

/// The answer to a message stream collected in one response: the events
/// and the mark "completed".
pub fn stream_response(events: Vec<JsonValue>, id: &Option<JSONRPCId>) -> (r: JsonValue)
    ensures
        r.deep_view() == success_json(
            JsonData::Object(seq![("events"@, JsonData::Array(crate::json::json_seq_data(events@))), ("stream"@, JsonData::Str("completed"@))]),
            id.deep_view(),
        ),
{
    let mut members: Vec<(String, JsonValue)> = Vec::new();
    let arr = JsonValue::Array(events);
    members.push((owned("events"), arr));
    members.push((owned("stream"), JsonValue::string("completed")));
    let obj = JsonValue::Object(members);
    proof {
        reveal_with_fuel(crate::json::member_seq_data, 3);
        assert(members@.drop_last().drop_last() =~= Seq::<(String, JsonValue)>::empty());
        assert(members@.drop_last() =~= seq![members@[0]]);
        assert(crate::json::member_seq_data(members@) =~= seq![(members@[0].0@, crate::json::json_data(members@[0].1)),
            (members@[1].0@, crate::json::json_data(members@[1].1))]);
    }
    success_response(obj, id)
}

/// An event as a streaming result.
pub fn streaming_result(event: Event) -> (r: SendStreamingMessageResult)
    ensures
        event matches Event::TaskStatusUpdate(u) ==> r == SendStreamingMessageResult::TaskStatusUpdateEvent(u),
        event matches Event::TaskArtifactUpdate(u) ==> r == SendStreamingMessageResult::TaskArtifactUpdateEvent(u),
        event matches Event::Message(m) ==> r == SendStreamingMessageResult::Message(m),
        event matches Event::Task(t) ==> r == SendStreamingMessageResult::Task(t),
{
    match event {
        Event::TaskStatusUpdate(u) => SendStreamingMessageResult::TaskStatusUpdateEvent(u),
        Event::TaskArtifactUpdate(u) => SendStreamingMessageResult::TaskArtifactUpdateEvent(u),
        Event::Message(m) => SendStreamingMessageResult::Message(m),
        Event::Task(t) => SendStreamingMessageResult::Task(t),
    }
}

/// One server-sent event carrying `json`: "data: {json}" and a blank line.
pub fn sse_frame(json: &str) -> (r: String)
    ensures
        r@ == "data: "@ + json@ + "\n\n"@,
{
    concat3("data: ", json, "\n\n")
}

/// A REST error: a protocol error code and a message.
#[derive(Debug)]
pub struct RestErrorResponse {
    pub code: i32,
    pub message: String,
}

/// A protocol error as a REST error: its code and message.
pub fn error_from_a2a(err: &A2AError) -> (r: RestErrorResponse)
    ensures
        r.code == err.spec_code(),
        r.message@ == err.spec_message(),
{
    RestErrorResponse { code: err.code(), message: owned(err.message()) }
}

/// Maps REST requests to the request handler `H`, checking what the agent
/// supports.
pub struct RestHandler<H> {
    agent_card: AgentCard,
    request_handler: H,
}

impl<H> RestHandler<H> {
    /// The agent's card.
    pub closed spec fn spec_card(&self) -> AgentCard {
        self.agent_card
    }

    /// The request handler.
    pub closed spec fn spec_handler(&self) -> H {
        self.request_handler
    }

    /// A REST front end for the agent of `agent_card`.
    pub fn new(agent_card: AgentCard, request_handler: H) -> (r: Self)
        ensures
            r.spec_card() == agent_card,
            r.spec_handler() == request_handler,
    {
        RestHandler { agent_card, request_handler }
    }

    /// The request handler.
    pub fn request_handler(&self) -> (r: &H)
        ensures
            *r == self.spec_handler(),
    {
        &self.request_handler
    }

    /// Streaming must be declared: refused otherwise, as an unsupported
    /// operation "Streaming is not supported by the agent".
    pub fn ensure_streaming_supported(&self) -> (r: Result<(), RestErrorResponse>)
        ensures
            r is Ok <==> self.spec_card().capabilities.streaming == Some(true),
            r matches Err(e) ==> e.code == crate::error::UNSUPPORTED_OPERATION
                && e.message@ == "Streaming is not supported by the agent"@,
    {
        let ok = match self.agent_card.capabilities.streaming {
            Some(b) => b,
            None => false,
        };
        if !ok {
            let err = A2AError::unsupported_operation("Streaming is not supported by the agent");
            return Err(error_from_a2a(&err));
        }
        Ok(())
    }

    /// Push notifications must be declared: refused otherwise.
    pub fn ensure_push_supported(&self) -> (r: Result<(), RestErrorResponse>)
        ensures
            r is Ok <==> self.spec_card().capabilities.push_notifications == Some(true),
            r matches Err(e) ==> e.code == crate::error::PUSH_NOTIFICATION_NOT_SUPPORTED
                && e.message@ == "Push Notification is not supported"@,
    {
        let ok = match self.agent_card.capabilities.push_notifications {
            Some(b) => b,
            None => false,
        };
        if !ok {
            let err = A2AError::push_notification_not_supported();
            return Err(error_from_a2a(&err));
        }
        Ok(())
    }

    /// The error for a task that is not found.
    pub fn task_not_found(&self) -> (r: RestErrorResponse)
        ensures
            r.code == crate::error::TASK_NOT_FOUND,
            r.message@ == TaskNotFoundError::default_message(),
    {
        let err = A2AError::TaskNotFound(TaskNotFoundError::default());
        error_from_a2a(&err)
    }

    /// The refusal of what is not implemented, as an unsupported operation.
    pub fn not_implemented(&self, msg: &str) -> (r: RestErrorResponse)
        ensures
            r.code == crate::error::UNSUPPORTED_OPERATION,
            r.message@ == msg@,
    {
        let err = A2AError::unsupported_operation(msg);
        error_from_a2a(&err)
    }

    /// The task a get or cancel answers with; no task means not found.
    pub fn task_outcome(&self, result: Result<Option<Task>, A2AError>) -> (r: Result<Task, RestErrorResponse>)
        ensures
            result matches Ok(Some(t)) ==> r matches Ok(x) && x == t,
            result is Ok && result->Ok_0 is None ==> (r matches Err(e) && e.code == crate::error::TASK_NOT_FOUND
                && e.message@ == TaskNotFoundError::default_message()),
            result matches Err(x) ==> (r matches Err(e) && e.code == x.spec_code() && e.message@ == x.spec_message()),
    {
        match result {
            Ok(Some(task)) => Ok(task),
            Ok(None) => Err(self.task_not_found()),
            Err(e) => Err(error_from_a2a(&e)),
        }
    }

    /// Listing push notification configurations is not implemented.
    pub fn list_push_notifications(&self, params: TaskIdParams) -> (r: Result<JsonValue, RestErrorResponse>)
        ensures
            r matches Err(e) && e.code == crate::error::UNSUPPORTED_OPERATION
                && e.message@ == "list notifications not implemented"@,
    {
        Err(self.not_implemented("list notifications not implemented"))
    }

    /// Listing tasks is not implemented.
    pub fn list_tasks(&self) -> (r: Result<JsonValue, RestErrorResponse>)
        ensures
            r matches Err(e) && e.code == crate::error::UNSUPPORTED_OPERATION && e.message@ == "list tasks not implemented"@,
    {
        Err(self.not_implemented("list tasks not implemented"))
    }
}


/// The extended-card method is served only to a card that declares an
/// authenticated extended card: for any other card it is refused as an
/// invalid request with "Authenticated extended card is not supported by
/// this agent"; for a card that declares one it is not refused and is
/// acknowledged.
pub proof fn law_extended_card_method_needs_declaration(card: AgentCard, name: Seq<char>)
    requires
        name == "agent/authenticatedExtendedCard"@,
    ensures
        method_of(name) == Some(JsonRpcMethod::ExtendedCard),
        card.supports_authenticated_extended_card != Some(true) ==> capability_refusal(card, JsonRpcMethod::ExtendedCard)
            == Some("Authenticated extended card is not supported by this agent"@),
        card.supports_authenticated_extended_card == Some(true) ==> capability_refusal(card, JsonRpcMethod::ExtendedCard)
            is None && acknowledgement(JsonRpcMethod::ExtendedCard) is Some,
{
    reveal_strlit("agent/authenticatedExtendedCard");
    reveal_strlit("message/send");
    reveal_strlit("message/stream");
    reveal_strlit("tasks/get");
    reveal_strlit("tasks/cancel");
    reveal_strlit("tasks/pushNotificationConfig/set");
    reveal_strlit("tasks/pushNotificationConfig/get");
    reveal_strlit("tasks/pushNotificationConfig/list");
    reveal_strlit("tasks/pushNotificationConfig/delete");
    reveal_strlit("tasks/resubscribe");
    assert(name[0] == 'a');
    assert(name.len() == 31);
}


/// A method is refused for lack of a capability exactly when it needs one
/// the card does not declare: streaming for message streams, push
/// notifications for setting a push configuration, an authenticated
/// extended card for the extended-card method; no other method is refused.
pub proof fn law_capability_refusals(card: AgentCard, m: JsonRpcMethod)
    ensures
        capability_refusal(card, m) is Some <==> (m is MessageStream && card.capabilities.streaming != Some(true))
            || (m is SetPushConfig && card.capabilities.push_notifications != Some(true))
            || (m is ExtendedCard && card.supports_authenticated_extended_card != Some(true)),
{
}

} // verus!
