//! The gRPC representation of protocol objects, the conversions between
//! it and the protocol's own objects, and the requests the gRPC transport
//! sends.

use vstd::prelude::*;
use vstd::string::*;
use crate::client::{ClientEvent, TaskUpdateEvent, stand_in_task};
use crate::core_types::{Message, TaskState, TaskStatus};
use crate::error::A2AError;
use crate::json::Metadata;
use crate::models::{
    AgentCard, GetTaskPushNotificationConfigParams, MessageSendConfiguration, MessageSendParams,
    SendStreamingMessageResult, Task, TaskArtifactUpdateEvent, TaskIdParams, TaskOrMessage,
    TaskPushNotificationConfig, TaskQueryParams, TaskStatusUpdateEvent,
};
use crate::text::{owned, concat2, concat3};

verus! {

/// A request to send a message.
pub struct SendMessageRequest {
    pub request: Option<Message>,
    pub configuration: Option<MessageSendConfiguration>,
    pub metadata: Option<Metadata>,
}

/// The answer to a message send: a task or a message.
pub struct SendMessageResponse {
    pub task: Option<Task>,
    pub msg: Option<Message>,
}

/// A request for a task, by resource name.
pub struct GetTaskRequest {
    pub name: String,
    pub history_length: Option<i32>,
}

/// A request to cancel a task, by resource name.
pub struct CancelTaskRequest {
    pub name: String,
}

/// A request to create a push notification configuration under a task.
pub struct CreateTaskPushNotificationConfigRequest {
    pub parent: String,
    pub config_id: String,
    pub config: Option<TaskPushNotificationConfig>,
}

/// A request for a push notification configuration, by resource name.
pub struct GetTaskPushNotificationConfigRequest {
    pub name: String,
}

/// A request to subscribe to a task's events, by resource name.
pub struct TaskSubscriptionRequest {
    pub name: String,
}

/// A request for the agent card.
pub struct GetAgentCardRequest;

/// One item of a gRPC event stream.
pub struct StreamResponse {
    pub result: Option<StreamPayload>,
}

/// What an item of a gRPC event stream carries.
pub enum StreamPayload {
    Task(Task),
    Message(Message),
    TaskStatusUpdateEvent(TaskStatusUpdateEvent),
    TaskArtifactUpdateEvent(TaskArtifactUpdateEvent),
}

impl StreamPayload {
    /// The payload carrying a streaming result.
    pub fn from_result(value: SendStreamingMessageResult) -> (r: Self)
        ensures
            value matches SendStreamingMessageResult::Task(t) ==> r == StreamPayload::Task(t),
            value matches SendStreamingMessageResult::Message(m) ==> r == StreamPayload::Message(m),
            value matches SendStreamingMessageResult::TaskStatusUpdateEvent(e) ==> r
                == StreamPayload::TaskStatusUpdateEvent(e),
            value matches SendStreamingMessageResult::TaskArtifactUpdateEvent(e) ==> r
                == StreamPayload::TaskArtifactUpdateEvent(e),
    {
        match value {
            SendStreamingMessageResult::Task(task) => StreamPayload::Task(task),
            SendStreamingMessageResult::Message(message) => StreamPayload::Message(message),
            SendStreamingMessageResult::TaskStatusUpdateEvent(event) => StreamPayload::TaskStatusUpdateEvent(event),
            SendStreamingMessageResult::TaskArtifactUpdateEvent(event) => StreamPayload::TaskArtifactUpdateEvent(event),
        }
    }
}

/// A message in its gRPC form: a copy.
pub fn to_proto_message(m: &Message) -> (r: Result<Message, A2AError>)
    ensures
        r matches Ok(x) && x.deep_view() == m.deep_view(),
{
    Ok(m.clone())
}

/// Message send options in their gRPC form: a copy.
pub fn to_proto_message_send_configuration(c: &MessageSendConfiguration) -> (r: Result<MessageSendConfiguration, A2AError>)
    ensures
        r matches Ok(x) && x.deep_view() == c.deep_view(),
{
    Ok(c.clone())
}

/// Metadata in its gRPC form: a copy.
pub fn to_proto_metadata(m: &Metadata) -> (r: Result<Metadata, A2AError>)
    ensures
        r matches Ok(x) && x@ == m@,
{
    Ok(m.clone())
}

/// A task's push notification configuration in its gRPC form: a copy.
pub fn to_proto_task_push_notification_config(cfg: &TaskPushNotificationConfig) -> (r: Result<
    TaskPushNotificationConfig,
    A2AError,
>)
    ensures
        r matches Ok(x) && x.deep_view() == cfg.deep_view(),
{
    Ok(cfg.clone())
}

/// A message from its gRPC form.
pub fn from_proto_message(m: Message) -> (r: Result<Message, A2AError>)
    ensures
        r == Ok::<Message, A2AError>(m),
{
    Ok(m)
}

/// A task from its gRPC form.
pub fn from_proto_task(t: Task) -> (r: Result<Task, A2AError>)
    ensures
        r == Ok::<Task, A2AError>(t),
{
    Ok(t)
}

/// An agent card from its gRPC form.
pub fn from_proto_agent_card(c: AgentCard) -> (r: Result<AgentCard, A2AError>)
    ensures
        r == Ok::<AgentCard, A2AError>(c),
{
    Ok(c)
}

/// A task's push notification configuration from its gRPC form.
pub fn from_proto_task_push_notification_config(cfg: TaskPushNotificationConfig) -> (r: Result<
    TaskPushNotificationConfig,
    A2AError,
>)
    ensures
        r == Ok::<TaskPushNotificationConfig, A2AError>(cfg),
{
    Ok(cfg)
}

/// A status update from its gRPC form.
pub fn from_proto_task_status_update_event(ev: TaskStatusUpdateEvent) -> (r: Result<TaskStatusUpdateEvent, A2AError>)
    ensures
        r == Ok::<TaskStatusUpdateEvent, A2AError>(ev),
{
    Ok(ev)
}

/// An artifact update from its gRPC form.
pub fn from_proto_task_artifact_update_event(ev: TaskArtifactUpdateEvent) -> (r: Result<
    TaskArtifactUpdateEvent,
    A2AError,
>)
    ensures
        r == Ok::<TaskArtifactUpdateEvent, A2AError>(ev),
{
    Ok(ev)
}

/// The item of a message stream: what the payload carries; an empty item
/// is an invalid response.
pub fn from_proto_stream_response_as_task_or_message(r: StreamResponse) -> (out: Result<TaskOrMessage, A2AError>)
    ensures
        r.result matches Some(StreamPayload::Task(t)) ==> out == Ok::<_, A2AError>(TaskOrMessage::Task(t)),
        r.result matches Some(StreamPayload::Message(m)) ==> out == Ok::<_, A2AError>(TaskOrMessage::Message(m)),
        r.result matches Some(StreamPayload::TaskStatusUpdateEvent(u)) ==> out == Ok::<_, A2AError>(
            TaskOrMessage::TaskUpdate(u),
        ),
        r.result matches Some(StreamPayload::TaskArtifactUpdateEvent(u)) ==> out == Ok::<_, A2AError>(
            TaskOrMessage::TaskArtifactUpdateEvent(u),
        ),
        r.result is None ==> (out matches Err(A2AError::InvalidAgentResponse(m))
            && m@ == "Empty stream payload in gRPC response"@),
{
    match r.result {
        Some(StreamPayload::Task(task)) => Ok(TaskOrMessage::Task(task)),
        Some(StreamPayload::Message(message)) => Ok(TaskOrMessage::Message(message)),
        Some(StreamPayload::TaskStatusUpdateEvent(update)) => Ok(TaskOrMessage::TaskUpdate(update)),
        Some(StreamPayload::TaskArtifactUpdateEvent(update)) => Ok(TaskOrMessage::TaskArtifactUpdateEvent(update)),
        None => Err(A2AError::invalid_response("Empty stream payload in gRPC response")),
    }
}

/// The task a status update stands for: the update's task and context, in
/// the update's status.
fn task_from_status_update(update: &TaskStatusUpdateEvent) -> (r: Task)
    ensures
        stand_in_task(r.deep_view(), update.task_id@, update.context_id@),
        r.status.deep_view() == update.status.deep_view(),
{
    Task::new(update.context_id.clone(), update.status.clone()).with_task_id(update.task_id.clone())
}

/// The task an artifact update stands for: the update's task and context,
/// working.
fn task_from_artifact_update(update: &TaskArtifactUpdateEvent) -> (r: Task)
    ensures
        stand_in_task(r.deep_view(), update.task_id@, update.context_id@),
        r.status.state == TaskState::Working,
        r.status.message is None,
{
    let status = TaskStatus::new(TaskState::Working);
    Task::new(update.context_id.clone(), status).with_task_id(update.task_id.clone())
}

/// The item of a task subscription: a task, or an update with the task it
/// stands for; a message or an empty item is an invalid response.
pub fn from_proto_stream_response_as_client_event(r: StreamResponse) -> (out: Result<ClientEvent, A2AError>)
    ensures
        r.result matches Some(StreamPayload::Task(t)) ==> out matches Ok((x, None)) && x == t,
        r.result matches Some(StreamPayload::TaskStatusUpdateEvent(u)) ==> out matches Ok((
            x,
            Some(TaskUpdateEvent::Status(y)),
        )) && y.deep_view() == u.deep_view() && stand_in_task(x.deep_view(), u.task_id@, u.context_id@)
            && x.status.deep_view() == u.status.deep_view(),
        r.result matches Some(StreamPayload::TaskArtifactUpdateEvent(u)) ==> out matches Ok((
            x,
            Some(TaskUpdateEvent::Artifact(y)),
        )) && y.deep_view() == u.deep_view() && stand_in_task(x.deep_view(), u.task_id@, u.context_id@)
            && x.status.state == TaskState::Working,
        r.result matches Some(StreamPayload::Message(_)) ==> (out matches Err(A2AError::InvalidAgentResponse(m))
            && m@ == "Unexpected message payload in task subscription stream"@),
        r.result is None ==> (out matches Err(A2AError::InvalidAgentResponse(m))
            && m@ == "Empty stream payload in gRPC response"@),
{
    match r.result {
        Some(StreamPayload::Task(task)) => Ok((task, None)),
        Some(StreamPayload::TaskStatusUpdateEvent(update)) => {
            let event = TaskUpdateEvent::Status(update.clone());
            Ok((task_from_status_update(&update), Some(event)))
        },
        Some(StreamPayload::TaskArtifactUpdateEvent(update)) => {
            let event = TaskUpdateEvent::Artifact(update.clone());
            Ok((task_from_artifact_update(&update), Some(event)))
        },
        Some(StreamPayload::Message(_)) => Err(
            A2AError::invalid_response("Unexpected message payload in task subscription stream"),
        ),
        None => Err(A2AError::invalid_response("Empty stream payload in gRPC response")),
    }
}

/// The resource name of a task: "tasks/{id}".
pub fn task_resource_name(id: &str) -> (r: String)
    ensures
        r@ == "tasks/"@ + id@,
{
    concat2("tasks/", id)
}

/// The resource name of a task's push notification configuration:
/// "tasks/{id}/pushNotificationConfigs/{config}", with the configuration
/// "default" when none is named.
pub fn push_config_resource_name(id: &str, config_id: Option<&str>) -> (r: String)
    ensures
        r@ == "tasks/"@ + id@ + "/pushNotificationConfigs/"@ + match config_id {
            Some(c) => c@,
            None => "default"@,
        },
{
    let head = concat3("tasks/", id, "/pushNotificationConfigs/");
    match config_id {
        Some(c) => concat2(head.as_str(), c),
        None => concat2(head.as_str(), "default"),
    }
}

/// The gRPC request sending a message: copies of the message, its options
/// and its metadata.
pub fn send_message_request(params: &MessageSendParams) -> (r: SendMessageRequest)
    ensures
        r.request matches Some(m) && m.deep_view() == params.message.deep_view(),
        r.configuration.deep_view() == params.configuration.deep_view(),
        params.metadata is None ==> r.metadata is None,
        params.metadata matches Some(m) ==> (r.metadata matches Some(x) && x@ == m@),
{
    let configuration = match &params.configuration {
        Some(c) => Some(c.clone()),
        None => None,
    };
    let metadata = match &params.metadata {
        Some(m) => Some(m.clone()),
        None => None,
    };
    SendMessageRequest { request: Some(params.message.clone()), configuration, metadata }
}

/// The answer to a message send: the task if there is one, else the
/// message; an answer with neither is an invalid response.
pub fn send_message_outcome(resp: SendMessageResponse) -> (r: Result<TaskOrMessage, A2AError>)
    ensures
        resp.task matches Some(t) ==> r == Ok::<_, A2AError>(TaskOrMessage::Task(t)),
        resp.task is None ==> (resp.msg matches Some(m) ==> r == Ok::<_, A2AError>(TaskOrMessage::Message(m))),
        resp.task is None && resp.msg is None ==> (r matches Err(A2AError::InvalidAgentResponse(m))
            && m@ == "SendMessageResponse missing both task and msg"@),
{
    match resp.task {
        Some(t) => Ok(TaskOrMessage::Task(t)),
        None => match resp.msg {
            Some(m) => Ok(TaskOrMessage::Message(m)),
            None => Err(A2AError::invalid_response("SendMessageResponse missing both task and msg")),
        },
    }
}

/// The gRPC request for a task.
pub fn get_task_request(params: &TaskQueryParams) -> (r: GetTaskRequest)
    ensures
        r.name@ == "tasks/"@ + params.id@,
        r.history_length == params.history_length,
{
    GetTaskRequest { name: task_resource_name(params.id.as_str()), history_length: params.history_length }
}

/// The gRPC request cancelling a task.
pub fn cancel_task_request(params: &TaskIdParams) -> (r: CancelTaskRequest)
    ensures
        r.name@ == "tasks/"@ + params.id@,
{
    CancelTaskRequest { name: task_resource_name(params.id.as_str()) }
}

/// The gRPC request subscribing to a task.
pub fn task_subscription_request(params: &TaskIdParams) -> (r: TaskSubscriptionRequest)
    ensures
        r.name@ == "tasks/"@ + params.id@,
{
    TaskSubscriptionRequest { name: task_resource_name(params.id.as_str()) }
}

/// The gRPC request creating a task's push notification configuration,
/// under the configuration's id (empty when it has none).
pub fn create_push_config_request(request: &TaskPushNotificationConfig) -> (r: CreateTaskPushNotificationConfigRequest)
    ensures
        r.parent@ == "tasks/"@ + request.task_id@,
        r.config_id@ == match request.push_notification_config.id {
            Some(i) => i@,
            None => ""@,
        },
        r.config matches Some(c) && c.deep_view() == request.deep_view(),
{
    let config_id = match &request.push_notification_config.id {
        Some(i) => i.clone(),
        None => owned(""),
    };
    CreateTaskPushNotificationConfigRequest {
        parent: task_resource_name(request.task_id.as_str()),
        config_id,
        config: Some(request.clone()),
    }
}

/// The gRPC request for a task's push notification configuration.
pub fn get_push_config_request(params: &GetTaskPushNotificationConfigParams) -> (r: GetTaskPushNotificationConfigRequest)
    ensures
        r.name@ == "tasks/"@ + params.id@ + "/pushNotificationConfigs/"@ + match params.push_notification_config_id {
            Some(c) => c@,
            None => "default"@,
        },
{
    let name = match &params.push_notification_config_id {
        Some(c) => push_config_resource_name(params.id.as_str(), Some(c.as_str())),
        None => push_config_resource_name(params.id.as_str(), None),
    };
    GetTaskPushNotificationConfigRequest { name }
}

} // verus!
