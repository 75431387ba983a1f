//! Strict decoding of JSON-RPC 2.0 messages.
//!
//! Text is parsed into a generic JSON value by `serde_json`; the decoders in
//! this crate then check the protocol's structural rules in a fixed order and
//! produce either a typed record or the first rule that failed. Every decoder
//! carries a contract over a mathematical model of the JSON value.

pub mod json;
pub mod error;
pub mod message;
pub mod decode;
pub mod encode;
pub mod validate;
pub mod laws;
