//! The node on the overlay network.

pub mod p2p_network;
