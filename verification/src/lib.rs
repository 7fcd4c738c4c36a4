//! Decoder, calibration model and point-cloud converter for the fixed binary
//! wire format of spinning mechanical LiDAR sensors (16- and 32-channel
//! rotating-mirror units).
//!
//! Raw UDP payloads are decoded into validated [`packet::Packet`] values,
//! per-sensor factory calibration is applied through a conversion context
//! ([`pcd_converter::context`]) derived once per stream, and each packet is
//! converted into a sequence of typed per-return point measurements.
//!
//! All physical quantities are carried as exact integers: distances in
//! millimeters or micrometers, angles in millidegrees or encoder counts, and
//! times in nanoseconds. Converting these to floating-point meters or radians
//! is left to the caller.

pub mod config;
pub mod consts;
pub mod packet;
pub mod pcd_converter;
