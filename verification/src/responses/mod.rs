//! Messages a node sends in answer.

pub mod list_response;
