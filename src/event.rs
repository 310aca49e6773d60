use vstd::prelude::*;

use crate::binary32::Binary32;

verus! {

/// Something a flow reports about its seismometer.
#[derive(Debug, Clone, Copy, PartialEq, Eq, Structural)]
pub enum Event {
    /// A running status.
    Status { dc: Binary32, energy: Binary32 },
    /// The seismometer channel came online.
    Available,
    /// The seismometer channel went silent.
    Unavailable,
    /// An earthquake is being detected.
    Triggered,
    /// A detected earthquake is over.
    Reset,
}

/// An event together with the flow that reported it.
#[derive(Debug, Clone, Copy, PartialEq, Eq, Structural)]
pub struct TriggerMessage {
    pub source_id: usize,
    pub event: Event,
}

} // verus!
