//! Script-hook engine for batch audio retagging.
//!
//! The library models one track's metadata as a plain record, marshals that
//! record across the boundary to an embedded Lua runtime, lets user scripts
//! register transformation callbacks, and drives the registered callbacks in
//! order over a record, collecting at most one replacement record back.

pub mod config;
pub mod dispatch;
pub mod errors;
pub mod engine;
pub mod marshal;
pub mod trackdata;
