//! Verified core of a small chat service: HTTP replies and request routing,
//! credential checks, the registry of connected users, the websocket session
//! protocol and the client's input handling.

pub mod auth;
pub mod client;
pub mod connection;
pub mod endpoints;
pub mod message;
pub mod registry;
pub mod request;
pub mod response;
pub mod session;
pub mod text;
pub mod token;
