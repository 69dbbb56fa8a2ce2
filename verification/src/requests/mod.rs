//! Messages a node sends unasked.

pub mod list_request;
pub mod message_request;
