//! How a node behaves towards the network.

pub mod peer_status;
