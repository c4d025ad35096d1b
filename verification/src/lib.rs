//! A timed, optionally skippable splash sequence.
//!
//! The library is the temporal core of a splash screen: per-item four-stage
//! timing (`wait -> intro -> hold -> fade`) with a derived opacity, an
//! aggregation rule that decides when the whole set of items has finished,
//! a skip rule over one tick's batch of input events, and two controller
//! variants on top of those. The autonomous controller requests a phase
//! transition itself the tick the sequence completes or is skipped; the
//! cooperative controller only reports a completion boolean to an external
//! progress tracker, which alone decides when to move on.
//!
//! Time is measured in integer units; the host picks the granularity
//! (milliseconds, for instance) and supplies one non-negative delta per tick.
//! Opacity is an exact fraction, so the linear ramps are stated and proved
//! without rounding. Rendering, input polling and the host's phase manager
//! stay outside: the host feeds plain deltas and event batches in and gets
//! plain opacities and decisions back.

pub mod aggregate;
pub mod controller;
pub mod fade;
pub mod frac;
pub mod skip;
pub mod timer;
