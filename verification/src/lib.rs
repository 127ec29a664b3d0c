//! A verified model of the `.funscript` file format: a JSON document that
//! carries a time series of device action points together with simulator
//! presets and editor metadata.
//!
//! The crate parses such documents strictly (unknown keys are rejected,
//! missing keys fall back to documented defaults), serializes them back with
//! round-trip fidelity, gives indexed access to action points, and reduces
//! the action sequence with the Ramer-Douglas-Peucker algorithm.

pub mod doc;
pub mod schema;
pub mod simplify;
pub mod json;
