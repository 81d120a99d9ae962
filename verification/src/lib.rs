//! Protocol engine of an MQTT client, with the command side of the network
//! layer it runs on.
//!
//! The engine is a state machine: every operation takes the client state and an
//! event, updates the state, and returns what has to be done on the transport
//! or which callbacks are due. Nothing here performs I/O.

pub mod client;
pub mod correlation;
pub mod error;
pub mod keepalive;
pub mod laws;
pub mod model;
pub mod names;
pub mod net;
pub mod packet;
pub mod registry;
pub mod shared;
pub mod topic;
