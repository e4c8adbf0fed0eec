//! Verified core of a command relay: a bridge that carries actuation commands
//! from a single trusted controller to a single device over two persistent
//! socket connections, and carries status information back.
//!
//! The library holds everything the relay decides and computes: the command
//! and status value types, the command validator, the JSON wire codec, a model
//! of the shared routing hub with its bounded lossy channels, and the per-role
//! session logic (reader, writer, keep-alive, supervisor) as verified state
//! machines. The surrounding process (sockets, timers, task spawning) performs
//! the I/O and feeds events to these functions.

pub mod commands;
pub mod controller;
pub mod device;
pub mod hub;
pub mod keepalive;
pub mod messages;
pub mod session;
pub mod wire;
