//! The building blocks of the simulation server.

pub mod channels;
pub mod connection;
pub mod protocol;
pub mod rounding;
pub mod simulation;
pub mod watertank;
