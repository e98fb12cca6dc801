//! Client for the REST API of a ledger node: picks a node, builds request URLs, and
//! decodes the node's answers into identifiers and payloads.
pub mod client;
pub mod codec;
pub mod error;
pub mod json;
pub mod message;
pub mod response;
