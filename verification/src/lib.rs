//! An HTTP gateway core for a certified backend: it translates inbound HTTP
//! requests into backend calls, assembles response bodies that may arrive
//! whole, through a streaming-callback protocol or through byte-range
//! chunking, verifies certified responses, and applies the header and status
//! policy of the response-verification protocol.

pub mod strutil;
pub mod error;
pub mod headers;
pub mod request;
pub mod validate;
pub mod response;
pub mod response_handler;
pub mod handler;
pub mod client;
pub mod request_builder;
