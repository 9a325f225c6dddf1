//! Protocol errors and their JSON-RPC error codes.

use vstd::prelude::*;
use crate::text::owned;

verus! {

/// Invalid JSON was received.
pub const PARSE_ERROR: i32 = -32700;
/// The JSON sent is not a valid request object.
pub const INVALID_REQUEST: i32 = -32600;
/// The method does not exist or is not available.
pub const METHOD_NOT_FOUND: i32 = -32601;
/// Invalid method parameters.
pub const INVALID_PARAMS: i32 = -32602;
/// Internal error.
pub const INTERNAL_ERROR: i32 = -32603;
/// The task was not found.
pub const TASK_NOT_FOUND: i32 = -32001;
/// The task cannot be canceled.
pub const TASK_NOT_CANCELABLE: i32 = -32002;
/// Push notifications are not supported.
pub const PUSH_NOTIFICATION_NOT_SUPPORTED: i32 = -32003;
/// The operation is not supported.
pub const UNSUPPORTED_OPERATION: i32 = -32004;
/// The content type is not supported.
pub const CONTENT_TYPE_NOT_SUPPORTED: i32 = -32005;
/// The agent sent an invalid response.
pub const INVALID_AGENT_RESPONSE: i32 = -32006;

/// The error raised when a task cannot be found.
#[derive(Debug)]
pub struct TaskNotFoundError {
    pub message: String,
}

impl TaskNotFoundError {
    /// The message carried by a default `TaskNotFoundError`.
    pub open spec fn default_message() -> Seq<char> {
        "Task not found"@
    }
}

impl Default for TaskNotFoundError {
    fn default() -> (r: Self)
        ensures
            r.message@ == Self::default_message(),
    {
        TaskNotFoundError { message: owned("Task not found") }
    }
}

/// Errors of the A2A protocol.
#[derive(Debug)]
pub enum A2AError {
    JsonParse(String),
    InvalidRequest(String),
    MethodNotFound(String),
    InvalidParams(String),
    Internal(String),
    TaskNotFound(TaskNotFoundError),
    TaskNotCancelable(String),
    PushNotificationNotSupported(String),
    UnsupportedOperation(String),
    ContentTypeNotSupported(String),
    InvalidAgentResponse(String),
    JsonRpc { code: i32, message: String },
    Http { status: u16, message: String },
}

impl A2AError {
    /// The JSON-RPC code of an error.
    pub open spec fn spec_code(&self) -> i32 {
        match self {
            A2AError::JsonParse(_) => PARSE_ERROR,
            A2AError::InvalidRequest(_) => INVALID_REQUEST,
            A2AError::MethodNotFound(_) => METHOD_NOT_FOUND,
            A2AError::InvalidParams(_) => INVALID_PARAMS,
            A2AError::Internal(_) => INTERNAL_ERROR,
            A2AError::TaskNotFound(_) => TASK_NOT_FOUND,
            A2AError::TaskNotCancelable(_) => TASK_NOT_CANCELABLE,
            A2AError::PushNotificationNotSupported(_) => PUSH_NOTIFICATION_NOT_SUPPORTED,
            A2AError::UnsupportedOperation(_) => UNSUPPORTED_OPERATION,
            A2AError::ContentTypeNotSupported(_) => CONTENT_TYPE_NOT_SUPPORTED,
            A2AError::InvalidAgentResponse(_) => INVALID_AGENT_RESPONSE,
            A2AError::JsonRpc { code, .. } => *code,
            A2AError::Http { .. } => INTERNAL_ERROR,
        }
    }

    /// The human-readable message of an error.
    pub open spec fn spec_message(&self) -> Seq<char> {
        match self {
            A2AError::JsonParse(m) => m@,
            A2AError::InvalidRequest(m) => m@,
            A2AError::MethodNotFound(m) => m@,
            A2AError::InvalidParams(m) => m@,
            A2AError::Internal(m) => m@,
            A2AError::TaskNotFound(e) => e.message@,
            A2AError::TaskNotCancelable(m) => m@,
            A2AError::PushNotificationNotSupported(m) => m@,
            A2AError::UnsupportedOperation(m) => m@,
            A2AError::ContentTypeNotSupported(m) => m@,
            A2AError::InvalidAgentResponse(m) => m@,
            A2AError::JsonRpc { message, .. } => message@,
            A2AError::Http { message, .. } => message@,
        }
    }

    /// The JSON-RPC error code of this error.
    pub fn code(&self) -> (r: i32)
        ensures
            r == self.spec_code(),
    {
        match self {
            A2AError::JsonParse(_) => PARSE_ERROR,
            A2AError::InvalidRequest(_) => INVALID_REQUEST,
            A2AError::MethodNotFound(_) => METHOD_NOT_FOUND,
            A2AError::InvalidParams(_) => INVALID_PARAMS,
            A2AError::Internal(_) => INTERNAL_ERROR,
            A2AError::TaskNotFound(_) => TASK_NOT_FOUND,
            A2AError::TaskNotCancelable(_) => TASK_NOT_CANCELABLE,
            A2AError::PushNotificationNotSupported(_) => PUSH_NOTIFICATION_NOT_SUPPORTED,
            A2AError::UnsupportedOperation(_) => UNSUPPORTED_OPERATION,
            A2AError::ContentTypeNotSupported(_) => CONTENT_TYPE_NOT_SUPPORTED,
            A2AError::InvalidAgentResponse(_) => INVALID_AGENT_RESPONSE,
            A2AError::JsonRpc { code, .. } => *code,
            A2AError::Http { .. } => INTERNAL_ERROR,
        }
    }

    /// The message of this error.
    pub fn message(&self) -> (r: &str)
        ensures
            r@ == self.spec_message(),
    {
        match self {
            A2AError::JsonParse(m) => m.as_str(),
            A2AError::InvalidRequest(m) => m.as_str(),
            A2AError::MethodNotFound(m) => m.as_str(),
            A2AError::InvalidParams(m) => m.as_str(),
            A2AError::Internal(m) => m.as_str(),
            A2AError::TaskNotFound(e) => e.message.as_str(),
            A2AError::TaskNotCancelable(m) => m.as_str(),
            A2AError::PushNotificationNotSupported(m) => m.as_str(),
            A2AError::UnsupportedOperation(m) => m.as_str(),
            A2AError::ContentTypeNotSupported(m) => m.as_str(),
            A2AError::InvalidAgentResponse(m) => m.as_str(),
            A2AError::JsonRpc { message, .. } => message.as_str(),
            A2AError::Http { message, .. } => message.as_str(),
        }
    }

    /// An internal error with the given message.
    pub fn internal(message: &str) -> (r: Self)
        ensures
            r matches A2AError::Internal(m) && m@ == message@,
    {
        A2AError::Internal(owned(message))
    }

    /// An "operation not supported" error with the given message.
    pub fn unsupported_operation(message: &str) -> (r: Self)
        ensures
            r matches A2AError::UnsupportedOperation(m) && m@ == message@,
    {
        A2AError::UnsupportedOperation(owned(message))
    }

    /// An "invalid parameters" error with the given message.
    pub fn invalid_params(message: &str) -> (r: Self)
        ensures
            r matches A2AError::InvalidParams(m) && m@ == message@,
    {
        A2AError::InvalidParams(owned(message))
    }

    /// An "invalid request" error with the given message.
    pub fn invalid_request(message: &str) -> (r: Self)
        ensures
            r matches A2AError::InvalidRequest(m) && m@ == message@,
    {
        A2AError::InvalidRequest(owned(message))
    }

    /// An "invalid agent response" error with the given message.
    pub fn invalid_response(message: &str) -> (r: Self)
        ensures
            r matches A2AError::InvalidAgentResponse(m) && m@ == message@,
    {
        A2AError::InvalidAgentResponse(owned(message))
    }

    /// A transport failure; transport failures are internal errors.
    pub fn transport_error(message: String) -> (r: Self)
        ensures
            r matches A2AError::Internal(m) && m@ == message@,
    {
        A2AError::Internal(message)
    }

    /// A failure to read or write JSON.
    pub fn json_error(message: String) -> (r: Self)
        ensures
            r matches A2AError::JsonParse(m) && m@ == message@,
    {
        A2AError::JsonParse(message)
    }

    /// An HTTP response with a non-success status.
    pub fn http_error(status: u16, message: String) -> (r: Self)
        ensures
            r matches A2AError::Http { status: s, message: m } && s == status && m@ == message@,
    {
        A2AError::Http { status, message }
    }

    /// An error reported by the remote side in a JSON-RPC error object.
    pub fn jsonrpc_error(code: i32, message: String) -> (r: Self)
        ensures
            r matches A2AError::JsonRpc { code: c, message: m } && c == code && m@ == message@,
    {
        A2AError::JsonRpc { code, message }
    }

    /// The error for agents that do not support push notifications.
    pub fn push_notification_not_supported() -> (r: Self)
        ensures
            r matches A2AError::PushNotificationNotSupported(m)
                && m@ == "Push Notification is not supported"@,
    {
        A2AError::PushNotificationNotSupported(owned("Push Notification is not supported"))
    }
}

} // verus!
