//! Decision core of a real-time seismometer monitor: the hysteresis trigger,
//! the per-flow trigger latch, the channel liveness supervisor, the
//! per-instrument event decisions and the action plans of the dispatcher,
//! together with the validated configuration of each signal block.
//!
//! Samples and filter parameters are single-precision values, held here as
//! their IEEE-754 encodings ([`binary32::Binary32`]) with the comparison the
//! decisions need; the filter arithmetic itself runs in the program around
//! this library, which hands over each flow's energy signal. Times are
//! nanoseconds on a monotonic clock.
use vstd::prelude::*;

pub mod actions;
pub mod affine;
pub mod binary32;
pub mod channel;
pub mod config;
pub mod event;
pub mod flow;
pub mod instrument;
pub mod interest;
pub mod lp_filter;
pub mod one_pole;
pub mod overrides;
pub mod rectify;
pub mod rsudp;
pub mod threshold;
pub mod timeout;

verus! {

} // verus!
