//! Server side of the WebSocket opening handshake: reading an inbound
//! upgrade request, validating it against the protocol's negotiation
//! rules, and deciding whether to upgrade the connection or reject it
//! with a 400 response.

pub mod error;
pub mod header;
pub mod http;
pub mod request;
pub mod response;
pub mod text;
