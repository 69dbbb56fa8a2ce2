//! The core of a peer-to-peer overlay node.
//!
//! Peers find each other on the local network, ask each other for their
//! status over a shared gossip topic and collect the answers. This crate holds
//! the part of such a node that decides: the protocol messages, the directory
//! of collected answers, the dispatcher that reacts to gossip and discovery
//! events, and the node actor that serves commands. Sockets, channels and the
//! event loop live with the program that embeds the crate.

pub mod admin;
pub mod behaviors;
pub mod models;
pub mod network;
pub mod requests;
pub mod responses;
