//! Scalar types shared with the engine.

use vstd::prelude::*;

verus! {

/// A count of frames, or a point in time measured in frames.
pub type JackFrames = u32;

/// A point in time measured in microseconds.
pub type JackTime = u64;

/// The engine's identifier of a port.
pub type JackPortId = u32;

} // verus!
