//! A peer-to-peer tunnel core: the signaling messages and their JSON shape,
//! the per-peer negotiation state machine, and the bridge that serialises local
//! stream connections onto one data channel per peer.
pub mod message;
pub mod table;
pub mod machine;
pub mod laws;
pub mod bridge;
pub mod json;
pub mod codec;
