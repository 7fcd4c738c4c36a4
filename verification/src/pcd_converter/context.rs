//! Per-stream conversion contexts: the physical quantities derived once
//! from a calibration config, plus the minimal cross-packet state needed
//! to pair dual returns.
//!
//! A context is bound to one ongoing packet stream and owned exclusively by
//! the converter processing that stream; consecutive conversion calls form
//! a single stateful sequence. Contexts for the single-return modes carry
//! no cross-packet state at all.

use vstd::prelude::*;

use crate::config::{
    Config16Channel, Config32Channel, DualReturn, DynamicConfig, LastReturn, ReturnTypeMarker,
    StrongestReturn, VelodyneConfigKind,
};
use crate::consts::CHANNEL_PER_FIRING;
use crate::packet::{Firing, FiringView};
use crate::pcd_converter::converter::{DualReturnPoint, DynamicPoint, SingleReturnPoint};

verus! {

/// The mathematical value of a conversion context: derived calibration per
/// channel and the optional unpaired block retained for dual-return
/// pairing.
#[verifier::ext_equal]
pub ghost struct ContextView {
    pub altitude_millidegrees: Seq<i64>,
    pub azimuth_offset_micrometers: Seq<i32>,
    pub last_block: Option<FiringView>,
}

/// The altitude angles a raw elevation table derives to: 90 degrees minus
/// the elevation, in millidegrees, measured down from the vertical axis.
pub open spec fn spec_altitudes_of(elevations: Seq<i32>) -> Seq<i64> {
    Seq::new(elevations.len(), |c: int| (90000 - elevations[c]) as i64)
}

/// The context a freshly derived calibration yields: derived altitudes,
/// copied corrections, and an empty pairing slot.
pub open spec fn spec_fresh_context(elevations: Seq<i32>, offsets: Seq<i32>) -> ContextView {
    ContextView {
        altitude_millidegrees: spec_altitudes_of(elevations),
        azimuth_offset_micrometers: offsets,
        last_block: None,
    }
}

/// Marker trait of every conversion context type.
pub trait ConverterContext {

}

/// Converts one 16-channel calibration config into the derived per-channel
/// quantities a context holds: altitude angle in millidegrees (90 degrees
/// minus the table's elevation above horizontal) and origin correction in
/// micrometers.
pub fn convert_16_channel_config<ReturnType: ReturnTypeMarker>(
    orig_config: Config16Channel<ReturnType>,
) -> (r: (Vec<i64>, Vec<i32>))
    ensures
        r.0@ == spec_altitudes_of(orig_config.spec_elevations()),
        r.1@ == orig_config.spec_offsets(),
        r.0@.len() == CHANNEL_PER_FIRING,
        r.1@.len() == CHANNEL_PER_FIRING,
{
    let elevation_millidegrees = orig_config.elevation_millidegrees();
    let azimuth_offset = orig_config.azimuth_offset_micrometers();
    let mut altitude_millidegrees: Vec<i64> = Vec::new();
    let mut azimuth_offset_micrometers: Vec<i32> = Vec::new();
    let mut c: usize = 0;
    while c < CHANNEL_PER_FIRING
        invariant
            c <= CHANNEL_PER_FIRING,
            elevation_millidegrees@ == orig_config.spec_elevations(),
            azimuth_offset@ == orig_config.spec_offsets(),
            elevation_millidegrees@.len() == CHANNEL_PER_FIRING,
            azimuth_offset@.len() == CHANNEL_PER_FIRING,
            altitude_millidegrees@.len() == c,
            azimuth_offset_micrometers@.len() == c,
            forall|j: int|
                0 <= j < c ==> altitude_millidegrees@[j] == 90000
                    - orig_config.spec_elevations()[j],
            forall|j: int|
                0 <= j < c ==> azimuth_offset_micrometers@[j] == orig_config.spec_offsets()[j],
        decreases CHANNEL_PER_FIRING - c,
    {
        altitude_millidegrees.push(90000i64 - elevation_millidegrees[c] as i64);
        azimuth_offset_micrometers.push(azimuth_offset[c]);
        c += 1;
    }
    proof {
        assert(altitude_millidegrees@ =~= spec_altitudes_of(orig_config.spec_elevations()));
        assert(azimuth_offset_micrometers@ =~= orig_config.spec_offsets());
    }
    (altitude_millidegrees, azimuth_offset_micrometers)
}

/// Converts one 32-channel calibration config into the derived per-channel
/// quantities a context holds, as [`convert_16_channel_config`] does for 16
/// channels.
pub fn convert_32_channel_config<ReturnTypeM: ReturnTypeMarker>(
    orig_config: Config32Channel<ReturnTypeM>,
) -> (r: (Vec<i64>, Vec<i32>))
    ensures
        r.0@ == spec_altitudes_of(orig_config.spec_elevations()),
        r.1@ == orig_config.spec_offsets(),
        r.0@.len() == 32,
        r.1@.len() == 32,
{
    let elevation_millidegrees = orig_config.elevation_millidegrees();
    let azimuth_offset = orig_config.azimuth_offset_micrometers();
    let mut altitude_millidegrees: Vec<i64> = Vec::new();
    let mut azimuth_offset_micrometers: Vec<i32> = Vec::new();
    let mut c: usize = 0;
    while c < 32
        invariant
            c <= 32,
            elevation_millidegrees@ == orig_config.spec_elevations(),
            azimuth_offset@ == orig_config.spec_offsets(),
            elevation_millidegrees@.len() == 32,
            azimuth_offset@.len() == 32,
            altitude_millidegrees@.len() == c,
            azimuth_offset_micrometers@.len() == c,
            forall|j: int|
                0 <= j < c ==> altitude_millidegrees@[j] == 90000
                    - orig_config.spec_elevations()[j],
            forall|j: int|
                0 <= j < c ==> azimuth_offset_micrometers@[j] == orig_config.spec_offsets()[j],
        decreases 32 - c,
    {
        altitude_millidegrees.push(90000i64 - elevation_millidegrees[c] as i64);
        azimuth_offset_micrometers.push(azimuth_offset[c]);
        c += 1;
    }
    proof {
        assert(altitude_millidegrees@ =~= spec_altitudes_of(orig_config.spec_elevations()));
        assert(azimuth_offset_micrometers@ =~= orig_config.spec_offsets());
    }
    (altitude_millidegrees, azimuth_offset_micrometers)
}

/// Derived per-stream state for a 16-channel sensor in a single-return
/// mode. Single-return conversion needs no cross-packet state, so this
/// context only carries the derived calibration.
pub struct SingleReturn16ChannelContext {
    /// Altitude angle per channel in millidegrees, measured down from the
    /// vertical axis.
    pub altitude_millidegrees: Vec<i64>,
    /// Origin correction per channel in micrometers.
    pub azimuth_offset_micrometers: Vec<i32>,
}

impl View for SingleReturn16ChannelContext {
    type V = ContextView;

    open spec fn view(&self) -> ContextView {
        ContextView {
            altitude_millidegrees: self.altitude_millidegrees@,
            azimuth_offset_micrometers: self.azimuth_offset_micrometers@,
            last_block: None,
        }
    }
}

impl ConverterContext for SingleReturn16ChannelContext {

}

impl SingleReturn16ChannelContext {
    /// The calibration arrays hold one entry per channel.
    pub open spec fn wf(self) -> bool {
        &&& self.altitude_millidegrees@.len() == CHANNEL_PER_FIRING
        &&& self.azimuth_offset_micrometers@.len() == CHANNEL_PER_FIRING
    }

    /// Derives the context from a 16-channel single-return calibration
    /// config, consuming it.
    pub fn from_config<ReturnType: ReturnTypeMarker>(orig_config: Config16Channel<ReturnType>) -> (
        r: Self)
        ensures
            r@ == spec_fresh_context(orig_config.spec_elevations(), orig_config.spec_offsets()),
            r.wf(),
    {
        let (altitude_millidegrees, azimuth_offset_micrometers) = convert_16_channel_config(
            orig_config,
        );
        SingleReturn16ChannelContext { altitude_millidegrees, azimuth_offset_micrometers }
    }
}

/// Derived per-stream state for a 16-channel sensor in dual-return mode:
/// the derived calibration plus the pairing slot holding the most recent
/// unpaired block, retained until the block that shares its azimuth
/// arrives.
pub struct DualReturn16ChannelContext {
    /// Altitude angle per channel in millidegrees, measured down from the
    /// vertical axis.
    pub altitude_millidegrees: Vec<i64>,
    /// Origin correction per channel in micrometers.
    pub azimuth_offset_micrometers: Vec<i32>,
    /// The unpaired block awaiting its same-azimuth partner, if any.
    pub last_block: Option<Firing>,
}

impl View for DualReturn16ChannelContext {
    type V = ContextView;

    open spec fn view(&self) -> ContextView {
        ContextView {
            altitude_millidegrees: self.altitude_millidegrees@,
            azimuth_offset_micrometers: self.azimuth_offset_micrometers@,
            last_block: match self.last_block {
                Some(b) => Some(b@),
                None => None,
            },
        }
    }
}

impl ConverterContext for DualReturn16ChannelContext {

}

impl DualReturn16ChannelContext {
    /// The calibration arrays hold one entry per channel, and a retained
    /// block is itself well formed.
    pub open spec fn wf(self) -> bool {
        &&& self.altitude_millidegrees@.len() == CHANNEL_PER_FIRING
        &&& self.azimuth_offset_micrometers@.len() == CHANNEL_PER_FIRING
        &&& match self@.last_block {
            Some(b) => b.wf(),
            None => true,
        }
    }

    /// Derives the context from a 16-channel dual-return calibration
    /// config, consuming it; the pairing slot starts empty.
    pub fn from_config(orig_config: Config16Channel<DualReturn>) -> (r: Self)
        ensures
            r@ == spec_fresh_context(orig_config.spec_elevations(), orig_config.spec_offsets()),
            r.wf(),
    {
        let (altitude_millidegrees, azimuth_offset_micrometers) = convert_16_channel_config(
            orig_config,
        );
        DualReturn16ChannelContext {
            altitude_millidegrees,
            azimuth_offset_micrometers,
            last_block: None,
        }
    }
}

/// Derived per-stream state for a 32-channel sensor in a single-return
/// mode: conversion-stateless, as for 16 channels.
pub struct SingleReturn32ChannelContext {
    /// Altitude angle per channel in millidegrees, measured down from the
    /// vertical axis.
    pub altitude_millidegrees: Vec<i64>,
    /// Origin correction per channel in micrometers.
    pub azimuth_offset_micrometers: Vec<i32>,
}

impl View for SingleReturn32ChannelContext {
    type V = ContextView;

    open spec fn view(&self) -> ContextView {
        ContextView {
            altitude_millidegrees: self.altitude_millidegrees@,
            azimuth_offset_micrometers: self.azimuth_offset_micrometers@,
            last_block: None,
        }
    }
}

impl ConverterContext for SingleReturn32ChannelContext {

}

impl SingleReturn32ChannelContext {
    /// The calibration arrays hold one entry per channel.
    pub open spec fn wf(self) -> bool {
        &&& self.altitude_millidegrees@.len() == 32
        &&& self.azimuth_offset_micrometers@.len() == 32
    }

    /// Derives the context from a 32-channel single-return calibration
    /// config, consuming it.
    pub fn from_config<ReturnType: ReturnTypeMarker>(orig_config: Config32Channel<ReturnType>) -> (
        r: Self)
        ensures
            r@ == spec_fresh_context(orig_config.spec_elevations(), orig_config.spec_offsets()),
            r.wf(),
    {
        let (altitude_millidegrees, azimuth_offset_micrometers) = convert_32_channel_config(
            orig_config,
        );
        SingleReturn32ChannelContext { altitude_millidegrees, azimuth_offset_micrometers }
    }
}

/// Derived per-stream state for a 32-channel sensor in dual-return mode:
/// the derived calibration plus the pairing slot.
pub struct DualReturn32ChannelContext {
    /// Altitude angle per channel in millidegrees, measured down from the
    /// vertical axis.
    pub altitude_millidegrees: Vec<i64>,
    /// Origin correction per channel in micrometers.
    pub azimuth_offset_micrometers: Vec<i32>,
    /// The unpaired block awaiting its same-azimuth partner, if any.
    pub last_block: Option<Firing>,
}

impl View for DualReturn32ChannelContext {
    type V = ContextView;

    open spec fn view(&self) -> ContextView {
        ContextView {
            altitude_millidegrees: self.altitude_millidegrees@,
            azimuth_offset_micrometers: self.azimuth_offset_micrometers@,
            last_block: match self.last_block {
                Some(b) => Some(b@),
                None => None,
            },
        }
    }
}

impl ConverterContext for DualReturn32ChannelContext {

}

impl DualReturn32ChannelContext {
    /// The calibration arrays hold one entry per channel, and a retained
    /// block is itself well formed.
    pub open spec fn wf(self) -> bool {
        &&& self.altitude_millidegrees@.len() == 32
        &&& self.azimuth_offset_micrometers@.len() == 32
        &&& match self@.last_block {
            Some(b) => b.wf(),
            None => true,
        }
    }

    /// Derives the context from a 32-channel dual-return calibration
    /// config, consuming it; the pairing slot starts empty.
    pub fn from_config(orig_config: Config32Channel<DualReturn>) -> (r: Self)
        ensures
            r@ == spec_fresh_context(orig_config.spec_elevations(), orig_config.spec_offsets()),
            r.wf(),
    {
        let (altitude_millidegrees, azimuth_offset_micrometers) = convert_32_channel_config(
            orig_config,
        );
        DualReturn32ChannelContext {
            altitude_millidegrees,
            azimuth_offset_micrometers,
            last_block: None,
        }
    }
}

/// A conversion context whose sensor model and return mode were selected
/// at run time: one variant per run-time calibration variant.
pub enum DynamicContext {
    StrongestReturn16Channel(SingleReturn16ChannelContext),
    LastReturn16Channel(SingleReturn16ChannelContext),
    DualReturn16Channel(DualReturn16ChannelContext),
    StrongestReturn32Channel(SingleReturn32ChannelContext),
    LastReturn32Channel(SingleReturn32ChannelContext),
    DualReturn32Channel(DualReturn32ChannelContext),
}

impl ConverterContext for DynamicContext {

}

/// Whether a dynamic context is the one freshly derived from the given
/// dynamic config: the variants correspond and the inner context is the
/// fresh derivation of the inner config.
pub open spec fn spec_dynamic_context_of(config: DynamicConfig, ctx: DynamicContext) -> bool {
    match (config, ctx) {
        (
            DynamicConfig::StrongestReturn16Channel(c),
            DynamicContext::StrongestReturn16Channel(x),
        ) => x@ == spec_fresh_context(c.spec_elevations(), c.spec_offsets()),
        (DynamicConfig::LastReturn16Channel(c), DynamicContext::LastReturn16Channel(x)) => x@
            == spec_fresh_context(c.spec_elevations(), c.spec_offsets()),
        (DynamicConfig::DualReturn16Channel(c), DynamicContext::DualReturn16Channel(x)) => x@
            == spec_fresh_context(c.spec_elevations(), c.spec_offsets()),
        (
            DynamicConfig::StrongestReturn32Channel(c),
            DynamicContext::StrongestReturn32Channel(x),
        ) => x@ == spec_fresh_context(c.spec_elevations(), c.spec_offsets()),
        (DynamicConfig::LastReturn32Channel(c), DynamicContext::LastReturn32Channel(x)) => x@
            == spec_fresh_context(c.spec_elevations(), c.spec_offsets()),
        (DynamicConfig::DualReturn32Channel(c), DynamicContext::DualReturn32Channel(x)) => x@
            == spec_fresh_context(c.spec_elevations(), c.spec_offsets()),
        _ => false,
    }
}

impl DynamicContext {
    /// Every variant's inner context is well formed.
    pub open spec fn wf(self) -> bool {
        match self {
            DynamicContext::StrongestReturn16Channel(x) => x.wf(),
            DynamicContext::LastReturn16Channel(x) => x.wf(),
            DynamicContext::DualReturn16Channel(x) => x.wf(),
            DynamicContext::StrongestReturn32Channel(x) => x.wf(),
            DynamicContext::LastReturn32Channel(x) => x.wf(),
            DynamicContext::DualReturn32Channel(x) => x.wf(),
        }
    }

    /// Derives the context matching a run-time-selected calibration
    /// config, consuming it.
    pub fn from_config(orig_config: DynamicConfig) -> (r: Self)
        ensures
            spec_dynamic_context_of(orig_config, r),
            r.wf(),
    {
        match orig_config {
            DynamicConfig::StrongestReturn16Channel(config) => {
                DynamicContext::StrongestReturn16Channel(
                    SingleReturn16ChannelContext::from_config(config),
                )
            },
            DynamicConfig::LastReturn16Channel(config) => {
                DynamicContext::LastReturn16Channel(
                    SingleReturn16ChannelContext::from_config(config),
                )
            },
            DynamicConfig::DualReturn16Channel(config) => {
                DynamicContext::DualReturn16Channel(
                    DualReturn16ChannelContext::from_config(config),
                )
            },
            DynamicConfig::StrongestReturn32Channel(config) => {
                DynamicContext::StrongestReturn32Channel(
                    SingleReturn32ChannelContext::from_config(config),
                )
            },
            DynamicConfig::LastReturn32Channel(config) => {
                DynamicContext::LastReturn32Channel(
                    SingleReturn32ChannelContext::from_config(config),
                )
            },
            DynamicConfig::DualReturn32Channel(config) => {
                DynamicContext::DualReturn32Channel(
                    DualReturn32ChannelContext::from_config(config),
                )
            },
        }
    }
}

/// The compile-time association from a calibration config variant to the
/// context it derives and the point type its conversions produce.
pub trait ToConverterContext where Self: VelodyneConfigKind {
    /// The context type this config derives.
    type Context;

    /// The point type one conversion of this config's streams produces.
    type Point;
}

impl ToConverterContext for Config16Channel<StrongestReturn> {
    type Context = SingleReturn16ChannelContext;

    type Point = SingleReturnPoint;
}

impl ToConverterContext for Config16Channel<LastReturn> {
    type Context = SingleReturn16ChannelContext;

    type Point = SingleReturnPoint;
}

impl ToConverterContext for Config16Channel<DualReturn> {
    type Context = DualReturn16ChannelContext;

    type Point = DualReturnPoint;
}

impl ToConverterContext for Config32Channel<StrongestReturn> {
    type Context = SingleReturn32ChannelContext;

    type Point = SingleReturnPoint;
}

impl ToConverterContext for Config32Channel<LastReturn> {
    type Context = SingleReturn32ChannelContext;

    type Point = SingleReturnPoint;
}

impl ToConverterContext for Config32Channel<DualReturn> {
    type Context = DualReturn32ChannelContext;

    type Point = DualReturnPoint;
}

impl ToConverterContext for DynamicConfig {
    type Context = DynamicContext;

    type Point = DynamicPoint;
}

} // verus!
