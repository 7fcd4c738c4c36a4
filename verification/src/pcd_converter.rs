//! The packet-to-point-cloud conversion pipeline: per-stream contexts
//! derived once from a calibration config, and the converter that turns
//! each decoded packet into a sequence of typed point measurements.

pub mod context;
pub mod converter;
