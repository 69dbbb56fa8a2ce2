//! Records kept about peers.

pub mod directory;
pub mod peer;
