//! Runtime for a unary RPC protocol over HTTP POST: envelopes that carry HTTP
//! metadata with a payload, the JSON error body, the client's target address,
//! the server's routing decision and the naming of generated bindings.

pub mod meta;
pub mod headers;
pub mod codec;
pub mod json;
pub mod error;
pub mod envelope;
pub mod reply;
pub mod client;
pub mod dispatch;
pub mod service_gen;

pub use self::client::HyperClient;
pub use self::dispatch::Dispatch;
pub use self::service_gen::{Artifact, TwirpServiceGenerator};
pub use self::envelope::{HttpRequest, HttpResponse, PTReq, ServiceRequest, ServiceResponse};
pub use self::error::{JsonError, ProstTwirpError, TwirpError};
pub use self::meta::{Method, StatusCode, Version};
