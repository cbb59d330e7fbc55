//! A minimal client library for a chat-completion HTTP service.
//!
//! The library holds the configuration (`Openai`), formats models to their
//! wire strings, frames the outbound JSON request body, and interprets the
//! transport outcome of a request. The single HTTPS round trip itself is left
//! to the caller, which hands the raw outcome back to [`client::Openai`].

pub mod client;
pub mod json;
pub mod message;
pub mod model;

pub use client::ApiError;
pub use client::Openai;
pub use message::Message;
pub use model::Model;
