//! A2A (Agent-to-Agent) protocol library: the protocol's data model, the
//! server-side event queues, queue manager, task store and task manager, the
//! request-routing decisions of the JSON-RPC and REST handlers, and the
//! client-side transport selection and wire framing.

pub mod text;
pub mod error;
pub mod json;
pub mod copy;
pub mod ids;
pub mod core_types;
pub mod models;
pub mod events;

pub mod queue_manager;
pub mod task_store;
pub mod task_manager;
pub mod client;
pub mod sse;
pub mod jsonrpc;
pub mod transport;
pub mod handlers;
pub mod server;
pub mod proto;
pub mod push_store;
