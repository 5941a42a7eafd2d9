//! A bridge between a real-time audio engine and application code: typed
//! results for the engine's status codes, and the conversions that stand
//! between the engine's callbacks and an application's handler.

pub mod client;
pub mod jack_enums;
pub mod jack_utils;
mod native;
pub mod port;
pub mod primitive_types;

pub use client::{
    ClientStatus, CycleTimes, HandlerState, JackClient, JackHandler, PortsQuery, ProcessHandler,
    ProcessScope, WeakClient,
};
pub use jack_enums::{JackControl, JackErr, JackErrView, LatencyType};
pub use port::{Port, PortFlags, PortSpec, Unowned, UnownedPort};
pub use primitive_types::{JackFrames, JackPortId, JackTime};
