//! Typed data model for a chat-platform gateway protocol, with verified
//! decoding of inbound documents and encoding of outbound commands.
//!
//! Raw documents are [`serde_json::Value`]s. Contracts speak of a document
//! through its mathematical model, [`document::Doc`].

pub mod decode;
pub mod document;
pub mod encode;
pub mod error;
pub mod gateway;
pub mod path;
pub mod resources;
pub mod time;
