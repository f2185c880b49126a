//! A simulated water tank and the protocol through which remote controllers
//! read its state and command its outflow.
//!
//! The crate holds the decisions: the tank's physics, the simulation tick, the
//! wire rules and the per-connection state machine. Sockets, timers and tasks
//! belong to the program that drives these types; of the channels between its
//! tasks the crate makes the calls that do not wait.

pub mod utils;
