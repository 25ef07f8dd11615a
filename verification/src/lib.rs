//! Request-lifecycle core for a worker-style HTTP service: a request model,
//! a response builder with an explicit "unset" flag, a per-request context,
//! an ordered handler chain with a first-answer protocol, and a deferred
//! runner that ships logs and runs background tasks after the response.
pub mod context;
pub mod error;
pub mod headers;
pub mod httpdate;
pub mod json;
pub mod logging;
pub mod media_type;
pub mod method;
pub mod request;
pub mod response;
pub mod service;
pub mod strutil;

pub use context::Context;
pub use error::Error;
pub use headers::Headers;
pub use httpdate::HttpDate;
pub use logging::{FailingSink, LogEntry, LogQueue, LogSink, RecordingSink, Severity, SilentSink};
pub use media_type::{media_type, remove_leading_slash};
pub use method::Method;
pub use request::Request;
pub use response::{Body, Response};
pub use service::{default_internal_error_handler, finalize_response, handler_return, process_request, service_trace_entry, run_chain, run_deferred, DefaultInternalErrorHandler, DeferredData, ErrorHandler, Handler, HandlerReturn, RunContext, Runnable, ServiceConfig};
