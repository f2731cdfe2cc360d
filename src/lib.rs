//! One node of a simulated distributed system: the message protocol and the
//! state machine that answers echo, init, topology, broadcast and read
//! requests, with idempotent flood broadcast.
pub mod laws;
pub mod node;
pub mod protocol;
