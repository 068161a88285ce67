//! The extended representation of requests, responses and messages.

pub mod async_message;
pub mod http_parts;
