//! Protocol objects: tasks, artifacts, task events, agent cards, request
//! parameters and results.

use vstd::prelude::*;
use crate::json::{JsonData, Metadata};
use crate::core_types::{Message, MessageData, Part, PartView, TaskStatus, TaskStatusData};
use crate::text::owned;
use crate::copy::{clone_vec, clone_opt, clone_opt_vec};
use crate::ids::new_uuid_string;

verus! {

/// The content of an artifact.
pub struct ArtifactData {
    pub artifact_id: Seq<char>,
    pub name: Option<Seq<char>>,
    pub description: Option<Seq<char>>,
    pub parts: Seq<PartView>,
    pub metadata: Option<Map<Seq<char>, JsonData>>,
    pub extensions: Option<Seq<Seq<char>>>,
}

/// An output produced by an agent for a task.
#[derive(Debug)]
pub struct Artifact {
    pub artifact_id: String,
    pub name: Option<String>,
    pub description: Option<String>,
    pub parts: Vec<Part>,
    pub metadata: Option<Metadata>,
    pub extensions: Option<Vec<String>>,
}

impl DeepView for Artifact {
    type V = ArtifactData;

    open spec fn deep_view(&self) -> ArtifactData {
        ArtifactData {
            artifact_id: self.artifact_id@,
            name: self.name.deep_view(),
            description: self.description.deep_view(),
            parts: self.parts.deep_view(),
            metadata: self.metadata.deep_view(),
            extensions: self.extensions.deep_view(),
        }
    }
}

impl Clone for Artifact {
    fn clone(&self) -> (r: Self)
        ensures
            r.deep_view() == self.deep_view(),
    {
        Artifact {
            artifact_id: self.artifact_id.clone(),
            name: clone_opt(&self.name),
            description: clone_opt(&self.description),
            parts: clone_vec(&self.parts),
            metadata: clone_opt(&self.metadata),
            extensions: clone_opt_vec(&self.extensions),
        }
    }
}

/// The content of a task.
pub struct TaskData {
    pub id: Seq<char>,
    pub context_id: Seq<char>,
    pub status: TaskStatusData,
    pub artifacts: Option<Seq<ArtifactData>>,
    pub history: Option<Seq<MessageData>>,
    pub metadata: Option<Map<Seq<char>, JsonData>>,
    pub kind: Seq<char>,
}

/// A unit of work that an agent carries out.
#[derive(Debug)]
pub struct Task {
    pub id: String,
    pub context_id: String,
    pub status: TaskStatus,
    pub artifacts: Option<Vec<Artifact>>,
    pub history: Option<Vec<Message>>,
    pub metadata: Option<Metadata>,
    pub kind: String,
}

impl DeepView for Task {
    type V = TaskData;

    open spec fn deep_view(&self) -> TaskData {
        TaskData {
            id: self.id@,
            context_id: self.context_id@,
            status: self.status.deep_view(),
            artifacts: self.artifacts.deep_view(),
            history: self.history.deep_view(),
            metadata: self.metadata.deep_view(),
            kind: self.kind@,
        }
    }
}

impl Clone for Task {
    fn clone(&self) -> (r: Self)
        ensures
            r.deep_view() == self.deep_view(),
    {
        Task {
            id: self.id.clone(),
            context_id: self.context_id.clone(),
            status: self.status.clone(),
            artifacts: clone_opt_vec(&self.artifacts),
            history: clone_opt_vec(&self.history),
            metadata: clone_opt(&self.metadata),
            kind: self.kind.clone(),
        }
    }
}

impl Task {
    /// A new task in `context_id` with the given status, a fresh random id,
    /// no artifacts, history or metadata, and kind "task".
    pub fn new(context_id: String, status: TaskStatus) -> (r: Self)
        ensures
            r.context_id@ == context_id@,
            r.status.deep_view() == status.deep_view(),
            r.artifacts is None,
            r.history is None,
            r.metadata is None,
            r.kind@ == "task"@,
            crate::ids::uuid_canonical_text(r.id@) == Some(r.id@),
    {
        Task {
            id: new_uuid_string(),
            context_id,
            status,
            artifacts: None,
            history: None,
            metadata: None,
            kind: owned("task"),
        }
    }

    /// Replaces the id of the task, keeping every other field.
    pub fn with_task_id(self, id: String) -> (r: Self)
        ensures
            r.deep_view() == (TaskData { id: id@, ..self.deep_view() }),
    {
        Task { id, ..self }
    }
}

/// The content of a task status update event.
pub struct TaskStatusUpdateEventData {
    pub task_id: Seq<char>,
    pub context_id: Seq<char>,
    pub status: TaskStatusData,
    pub is_final: bool,
    pub metadata: Option<Map<Seq<char>, JsonData>>,
    pub kind: Seq<char>,
}

/// Notifies that the status of a task changed (wire name of `is_final`: "final").
#[derive(Debug)]
pub struct TaskStatusUpdateEvent {
    pub task_id: String,
    pub context_id: String,
    pub status: TaskStatus,
    pub is_final: bool,
    pub metadata: Option<Metadata>,
    pub kind: String,
}

impl DeepView for TaskStatusUpdateEvent {
    type V = TaskStatusUpdateEventData;

    open spec fn deep_view(&self) -> TaskStatusUpdateEventData {
        TaskStatusUpdateEventData {
            task_id: self.task_id@,
            context_id: self.context_id@,
            status: self.status.deep_view(),
            is_final: self.is_final,
            metadata: self.metadata.deep_view(),
            kind: self.kind@,
        }
    }
}

impl Clone for TaskStatusUpdateEvent {
    fn clone(&self) -> (r: Self)
        ensures
            r.deep_view() == self.deep_view(),
    {
        TaskStatusUpdateEvent {
            task_id: self.task_id.clone(),
            context_id: self.context_id.clone(),
            status: self.status.clone(),
            is_final: self.is_final,
            metadata: clone_opt(&self.metadata),
            kind: self.kind.clone(),
        }
    }
}

/// The content of a task artifact update event.
pub struct TaskArtifactUpdateEventData {
    pub task_id: Seq<char>,
    pub context_id: Seq<char>,
    pub artifact: ArtifactData,
    pub append: Option<bool>,
    pub last_chunk: Option<bool>,
    pub metadata: Option<Map<Seq<char>, JsonData>>,
    pub kind: Seq<char>,
}

/// Notifies that an artifact of a task was produced or extended.
#[derive(Debug)]
pub struct TaskArtifactUpdateEvent {
    pub task_id: String,
    pub context_id: String,
    pub artifact: Artifact,
    pub append: Option<bool>,
    pub last_chunk: Option<bool>,
    pub metadata: Option<Metadata>,
    pub kind: String,
}

impl DeepView for TaskArtifactUpdateEvent {
    type V = TaskArtifactUpdateEventData;

    open spec fn deep_view(&self) -> TaskArtifactUpdateEventData {
        TaskArtifactUpdateEventData {
            task_id: self.task_id@,
            context_id: self.context_id@,
            artifact: self.artifact.deep_view(),
            append: self.append,
            last_chunk: self.last_chunk,
            metadata: self.metadata.deep_view(),
            kind: self.kind@,
        }
    }
}

impl Clone for TaskArtifactUpdateEvent {
    fn clone(&self) -> (r: Self)
        ensures
            r.deep_view() == self.deep_view(),
    {
        TaskArtifactUpdateEvent {
            task_id: self.task_id.clone(),
            context_id: self.context_id.clone(),
            artifact: self.artifact.clone(),
            append: self.append,
            last_chunk: self.last_chunk,
            metadata: clone_opt(&self.metadata),
            kind: self.kind.clone(),
        }
    }
}

/// Optional capabilities that an agent supports.
#[derive(Debug, Clone)]
pub struct AgentCapabilities {
    pub streaming: Option<bool>,
    pub push_notifications: Option<bool>,
    pub state_transition_history: Option<bool>,
}

impl AgentCapabilities {
    /// Capabilities with nothing declared.
    pub fn new() -> (r: Self)
        ensures
            r.streaming is None,
            r.push_notifications is None,
            r.state_transition_history is None,
    {
        AgentCapabilities { streaming: None, push_notifications: None, state_transition_history: None }
    }

    /// These capabilities with streaming declared as `streaming`.
    pub fn with_streaming(self, streaming: bool) -> (r: Self)
        ensures
            r == (AgentCapabilities { streaming: Some(streaming), ..self }),
    {
        AgentCapabilities { streaming: Some(streaming), ..self }
    }

    /// These capabilities with push notifications declared as `push`.
    pub fn with_push_notifications(self, push: bool) -> (r: Self)
        ensures
            r == (AgentCapabilities { push_notifications: Some(push), ..self }),
    {
        AgentCapabilities { push_notifications: Some(push), ..self }
    }
}

/// A further endpoint at which an agent can be reached.
#[derive(Debug, Clone)]
pub struct AgentInterface {
    pub url: String,
    pub transport: String,
}

impl AgentInterface {
    /// An interface reached at `url` over `transport`.
    pub fn new(url: String, transport: String) -> (r: Self)
        ensures
            r.url@ == url@,
            r.transport@ == transport@,
    {
        AgentInterface { url, transport }
    }
}

/// A skill that an agent can perform.
#[derive(Debug, Clone)]
pub struct AgentSkill {
    pub id: String,
    pub name: String,
    pub description: String,
    pub tags: Vec<String>,
    pub examples: Option<Vec<String>>,
    pub input_modes: Option<Vec<String>>,
    pub output_modes: Option<Vec<String>>,
}

/// The self-description of an agent.
#[derive(Debug, Clone)]
pub struct AgentCard {
    pub name: String,
    pub description: String,
    pub url: String,
    pub version: String,
    pub default_input_modes: Vec<String>,
    pub default_output_modes: Vec<String>,
    pub capabilities: AgentCapabilities,
    pub skills: Vec<AgentSkill>,
    pub preferred_transport: Option<String>,
    pub additional_interfaces: Option<Vec<AgentInterface>>,
    pub supports_authenticated_extended_card: Option<bool>,
}

impl AgentCard {
    /// A card with the given descriptive fields and no preferred transport,
    /// additional interfaces or extended-card declaration.
    pub fn new(
        name: String,
        description: String,
        url: String,
        version: String,
        default_input_modes: Vec<String>,
        default_output_modes: Vec<String>,
        capabilities: AgentCapabilities,
        skills: Vec<AgentSkill>,
    ) -> (r: Self)
        ensures
            r.name@ == name@,
            r.description@ == description@,
            r.url@ == url@,
            r.version@ == version@,
            r.default_input_modes.deep_view() == default_input_modes.deep_view(),
            r.default_output_modes.deep_view() == default_output_modes.deep_view(),
            r.capabilities == capabilities,
            r.skills@ == skills@,
            r.preferred_transport is None,
            r.additional_interfaces is None,
            r.supports_authenticated_extended_card is None,
    {
        AgentCard {
            name,
            description,
            url,
            version,
            default_input_modes,
            default_output_modes,
            capabilities,
            skills,
            preferred_transport: None,
            additional_interfaces: None,
            supports_authenticated_extended_card: None,
        }
    }

    /// This card preferring `transport`.
    pub fn with_preferred_transport(self, transport: String) -> (r: Self)
        ensures
            r == (AgentCard { preferred_transport: Some(transport), ..self }),
    {
        AgentCard { preferred_transport: Some(transport), ..self }
    }

    /// This card with the given additional interfaces.
    pub fn with_additional_interfaces(self, interfaces: Vec<AgentInterface>) -> (r: Self)
        ensures
            r == (AgentCard { additional_interfaces: Some(interfaces), ..self }),
    {
        AgentCard { additional_interfaces: Some(interfaces), ..self }
    }

    /// This card declaring whether an authenticated extended card exists.
    pub fn with_supports_authenticated_extended_card(self, supports: bool) -> (r: Self)
        ensures
            r == (AgentCard { supports_authenticated_extended_card: Some(supports), ..self }),
    {
        AgentCard { supports_authenticated_extended_card: Some(supports), ..self }
    }
}

/// The content of push notification authentication details.
pub struct PushNotificationAuthenticationInfoData {
    pub schemes: Seq<Seq<char>>,
    pub credentials: Option<Seq<char>>,
}

/// Authentication details for a push notification endpoint.
#[derive(Debug)]
pub struct PushNotificationAuthenticationInfo {
    pub schemes: Vec<String>,
    pub credentials: Option<String>,
}

impl DeepView for PushNotificationAuthenticationInfo {
    type V = PushNotificationAuthenticationInfoData;

    open spec fn deep_view(&self) -> PushNotificationAuthenticationInfoData {
        PushNotificationAuthenticationInfoData {
            schemes: self.schemes.deep_view(),
            credentials: self.credentials.deep_view(),
        }
    }
}

impl Clone for PushNotificationAuthenticationInfo {
    fn clone(&self) -> (r: Self)
        ensures
            r.deep_view() == self.deep_view(),
    {
        PushNotificationAuthenticationInfo {
            schemes: clone_vec(&self.schemes),
            credentials: clone_opt(&self.credentials),
        }
    }
}

/// The content of a push notification configuration.
pub struct PushNotificationConfigData {
    pub id: Option<Seq<char>>,
    pub url: Seq<char>,
    pub token: Option<Seq<char>>,
    pub authentication: Option<PushNotificationAuthenticationInfoData>,
}

/// Where and how to deliver push notifications for a task.
#[derive(Debug)]
pub struct PushNotificationConfig {
    pub id: Option<String>,
    pub url: String,
    pub token: Option<String>,
    pub authentication: Option<PushNotificationAuthenticationInfo>,
}

impl DeepView for PushNotificationConfig {
    type V = PushNotificationConfigData;

    open spec fn deep_view(&self) -> PushNotificationConfigData {
        PushNotificationConfigData {
            id: self.id.deep_view(),
            url: self.url@,
            token: self.token.deep_view(),
            authentication: self.authentication.deep_view(),
        }
    }
}

impl Clone for PushNotificationConfig {
    fn clone(&self) -> (r: Self)
        ensures
            r.deep_view() == self.deep_view(),
    {
        PushNotificationConfig {
            id: clone_opt(&self.id),
            url: self.url.clone(),
            token: clone_opt(&self.token),
            authentication: clone_opt(&self.authentication),
        }
    }
}

impl PushNotificationConfig {
    /// A configuration delivering to `url` (the text of a URL), with no id,
    /// token or authentication.
    pub fn new(url: String) -> (r: Self)
        ensures
            r.url@ == url@,
            r.id is None,
            r.token is None,
            r.authentication is None,
    {
        PushNotificationConfig { id: None, url, token: None, authentication: None }
    }
}

/// A push notification configuration bound to a task.
#[derive(Debug)]
pub struct TaskPushNotificationConfig {
    pub task_id: String,
    pub push_notification_config: PushNotificationConfig,
}

/// The content of a push notification configuration bound to a task.
pub struct TaskPushNotificationConfigData {
    pub task_id: Seq<char>,
    pub push_notification_config: PushNotificationConfigData,
}

impl DeepView for TaskPushNotificationConfig {
    type V = TaskPushNotificationConfigData;

    open spec fn deep_view(&self) -> TaskPushNotificationConfigData {
        TaskPushNotificationConfigData {
            task_id: self.task_id@,
            push_notification_config: self.push_notification_config.deep_view(),
        }
    }
}

impl Clone for TaskPushNotificationConfig {
    fn clone(&self) -> (r: Self)
        ensures
            r.deep_view() == self.deep_view(),
    {
        TaskPushNotificationConfig {
            task_id: self.task_id.clone(),
            push_notification_config: self.push_notification_config.clone(),
        }
    }
}

impl TaskPushNotificationConfig {
    /// Binds `config` to the task `task_id`.
    pub fn new(task_id: String, config: PushNotificationConfig) -> (r: Self)
        ensures
            r.task_id@ == task_id@,
            r.push_notification_config == config,
    {
        TaskPushNotificationConfig { task_id, push_notification_config: config }
    }
}

/// Options of a message send request.
#[derive(Debug)]
pub struct MessageSendConfiguration {
    pub accepted_output_modes: Option<Vec<String>>,
    pub blocking: Option<bool>,
    pub history_length: Option<i32>,
    pub push_notification_config: Option<PushNotificationConfig>,
}

/// The content of the options of a message send request.
pub struct MessageSendConfigurationData {
    pub accepted_output_modes: Option<Seq<Seq<char>>>,
    pub blocking: Option<bool>,
    pub history_length: Option<i32>,
    pub push_notification_config: Option<PushNotificationConfigData>,
}

impl DeepView for MessageSendConfiguration {
    type V = MessageSendConfigurationData;

    open spec fn deep_view(&self) -> MessageSendConfigurationData {
        MessageSendConfigurationData {
            accepted_output_modes: self.accepted_output_modes.deep_view(),
            blocking: self.blocking,
            history_length: self.history_length,
            push_notification_config: self.push_notification_config.deep_view(),
        }
    }
}

impl Clone for MessageSendConfiguration {
    fn clone(&self) -> (r: Self)
        ensures
            r.deep_view() == self.deep_view(),
    {
        MessageSendConfiguration {
            accepted_output_modes: clone_opt_vec(&self.accepted_output_modes),
            blocking: self.blocking,
            history_length: self.history_length,
            push_notification_config: clone_opt(&self.push_notification_config),
        }
    }
}

/// The parameters of "message/send" and "message/stream".
#[derive(Debug)]
pub struct MessageSendParams {
    pub message: Message,
    pub configuration: Option<MessageSendConfiguration>,
    pub metadata: Option<Metadata>,
}

impl MessageSendParams {
    /// Parameters sending `message` with no configuration or metadata.
    pub fn new(message: Message) -> (r: Self)
        ensures
            r.message == message,
            r.configuration is None,
            r.metadata is None,
    {
        MessageSendParams { message, configuration: None, metadata: None }
    }
}

/// The parameters of "tasks/get".
#[derive(Debug)]
pub struct TaskQueryParams {
    pub id: String,
    pub history_length: Option<i32>,
    pub metadata: Option<Metadata>,
}

/// Parameters naming a task.
#[derive(Debug)]
pub struct TaskIdParams {
    pub id: String,
    pub metadata: Option<Metadata>,
}

impl TaskIdParams {
    /// Parameters naming the task `id`.
    pub fn new(id: String) -> (r: Self)
        ensures
            r.id@ == id@,
            r.metadata is None,
    {
        TaskIdParams { id, metadata: None }
    }
}

/// The parameters of "tasks/pushNotificationConfig/get".
#[derive(Debug)]
pub struct GetTaskPushNotificationConfigParams {
    pub id: String,
    pub push_notification_config_id: Option<String>,
    pub metadata: Option<Metadata>,
}

/// The parameters of "tasks/pushNotificationConfig/delete".
#[derive(Debug)]
pub struct DeleteTaskPushNotificationConfigParams {
    pub id: String,
    pub push_notification_config_id: String,
    pub metadata: Option<Metadata>,
}

/// What a message send yields on the client side.
#[derive(Debug)]
pub enum TaskOrMessage {
    Task(Task),
    Message(Message),
    TaskUpdate(TaskStatusUpdateEvent),
    TaskArtifactUpdateEvent(TaskArtifactUpdateEvent),
}

/// One result of a streaming message send.
#[derive(Debug)]
pub enum SendStreamingMessageResult {
    Task(Task),
    Message(Message),
    TaskStatusUpdateEvent(TaskStatusUpdateEvent),
    TaskArtifactUpdateEvent(TaskArtifactUpdateEvent),
}

} // verus!
