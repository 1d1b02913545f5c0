//! A gateway that bridges a child process speaking newline-delimited JSON-RPC
//! over stdio to remote clients over Server-Sent Events and HTTP POST.
//!
//! This crate holds the decisions of the gateway: session identifiers, the
//! session registry, the outcome of each HTTP request, the forwarding state
//! machine of a session, and the launch plans of the language runners.

pub mod forward;
pub mod http;
pub mod registry;
pub mod runner;
pub mod session;

pub use forward::{ForwardAction, ForwardEvent, ForwardPhase, Forwarder};
pub use http::{
    delivery_status, endpoint_data, lookup_post, open_fresh_sse_session, open_sse_session, post_response_status,
    queue_disconnected_body, GatewayError, PostEventQuery, SseServerConfig, ACCEPTED,
    DEFAULT_AUTO_PING_INTERVAL_NS, DEFAULT_POST_PATH, DEFAULT_SSE_PATH,
};
pub use registry::SessionRegistry;
pub use runner::{CommandLine, JsRunner, Provisioning, PythonRunner, RunnerError};
pub use session::session_id;
