//! Clients of the engine: what they ask of it and what it tells them.

pub mod base;
pub mod callbacks;
pub mod client_status;

pub use base::{CycleTimes, JackClient, PortsQuery, ProcessScope, WeakClient};
pub use callbacks::{HandlerState, JackHandler, ProcessHandler};
pub use client_status::ClientStatus;
