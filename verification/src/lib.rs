//! A minimal harness for a point-to-point secure tunnel: a deterministic
//! IPv4/UDP packet codec, a datagram pump that drains two peers' protocol
//! engines to quiescence over in-memory queues, and a scenario driver that
//! sends one packet through the tunnel and hands back what arrived.

pub mod codec;
pub mod engine;
pub mod pump;
pub mod scenario;
