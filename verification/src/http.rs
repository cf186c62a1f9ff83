//! What the messaging core exchanges with the surrounding HTTP layer:
//! error-name extraction from decoder messages, the wire-agnostic codec
//! and parser error shapes, response body templates, and the websocket
//! protocol's plain-value types.  Network framing, serialization and
//! web-framework adapters live outside this core.

pub mod adapter;
pub mod api_macro;
pub mod codec;
pub mod json;
pub mod parser;
pub mod query_decoder;
pub mod response;
pub mod web_socket;
