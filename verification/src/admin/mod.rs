//! The operator's view of the node.

pub mod admin_server;
