//! Per-sensor-model factory calibration: elevation angle and origin
//! correction per channel, in wire-index order, validated once at
//! construction and immutable afterwards.
//!
//! Calibration values are exact integers: elevation in millidegrees
//! (positive above horizontal) and correction in micrometers. Wire order
//! need not be monotonic in elevation; [`sorted_elevation_order`] computes
//! the permutation that reorders channels by descending elevation for
//! consumers that need it.

use vstd::prelude::*;

use crate::consts::CHANNEL_PER_FIRING;

verus! {

/// Marker trait of the compile-time return-mode selectors.
pub trait ReturnTypeMarker: Sized {

}

/// Compile-time marker selecting the strongest-return mode.
#[derive(Clone, Copy, Debug)]
pub struct StrongestReturn;

impl ReturnTypeMarker for StrongestReturn {

}

/// Compile-time marker selecting the last-return mode.
#[derive(Clone, Copy, Debug)]
pub struct LastReturn;

impl ReturnTypeMarker for LastReturn {

}

/// Compile-time marker selecting the dual-return mode.
#[derive(Clone, Copy, Debug)]
pub struct DualReturn;

impl ReturnTypeMarker for DualReturn {

}

/// Marker trait implemented by every calibration config variant, static or
/// dynamic.
pub trait VelodyneConfigKind: Sized {

}

/// A failure to construct a calibration config.
#[derive(Clone, Copy, Debug, PartialEq, Eq, Structural)]
pub enum CalibrationError {
    /// A calibration array's length does not match the channel count of
    /// the config variant; `expected` is that channel count and `actual`
    /// the length that was given.
    LengthMismatch { expected: usize, actual: usize },
}

/// Factory calibration for a 16-channel sensor model, tagged at compile
/// time with the return mode it calibrates.
#[derive(Debug)]
pub struct Config16Channel<ReturnType: ReturnTypeMarker> {
    /// Per-channel elevation angle in millidegrees, wire order; positive is
    /// above horizontal.
    elevation_millidegrees: Vec<i32>,
    /// Per-channel origin correction in micrometers, wire order.
    azimuth_offset_micrometers: Vec<i32>,
    _return_type: core::marker::PhantomData<ReturnType>,
}

impl<ReturnType: ReturnTypeMarker> VelodyneConfigKind for Config16Channel<ReturnType> {

}

impl<ReturnType: ReturnTypeMarker> Config16Channel<ReturnType> {
    /// Every value of this type holds exactly 16 entries per array.
    #[verifier::type_invariant]
    spec fn type_inv(self) -> bool {
        self.elevation_millidegrees@.len() == CHANNEL_PER_FIRING
            && self.azimuth_offset_micrometers@.len() == CHANNEL_PER_FIRING
    }

    /// The per-channel elevation angles in millidegrees, wire order.
    pub closed spec fn spec_elevations(self) -> Seq<i32> {
        self.elevation_millidegrees@
    }

    /// The per-channel origin corrections in micrometers, wire order.
    pub closed spec fn spec_offsets(self) -> Seq<i32> {
        self.azimuth_offset_micrometers@
    }

    /// Builds a 16-channel calibration config. Fails exactly when an
    /// array's length is not 16; in-range numeric values are accepted
    /// as-is, with no semantic validation of the angles.
    pub fn new(
        elevation_millidegrees: Vec<i32>,
        azimuth_offset_micrometers: Vec<i32>,
    ) -> (r: Result<Self, CalibrationError>)
        ensures
            r is Ok <==> (elevation_millidegrees@.len() == CHANNEL_PER_FIRING
                && azimuth_offset_micrometers@.len() == CHANNEL_PER_FIRING),
            r matches Ok(c) ==> c.spec_elevations() == elevation_millidegrees@
                && c.spec_offsets() == azimuth_offset_micrometers@,
            r matches Err(e) ==> e == (CalibrationError::LengthMismatch {
                expected: CHANNEL_PER_FIRING,
                actual: if elevation_millidegrees@.len() != CHANNEL_PER_FIRING {
                    elevation_millidegrees@.len() as usize
                } else {
                    azimuth_offset_micrometers@.len() as usize
                },
            }),
    {
        if elevation_millidegrees.len() != CHANNEL_PER_FIRING {
            return Err(CalibrationError::LengthMismatch {
                expected: CHANNEL_PER_FIRING,
                actual: elevation_millidegrees.len(),
            });
        }
        if azimuth_offset_micrometers.len() != CHANNEL_PER_FIRING {
            return Err(CalibrationError::LengthMismatch {
                expected: CHANNEL_PER_FIRING,
                actual: azimuth_offset_micrometers.len(),
            });
        }
        Ok(Config16Channel {
            elevation_millidegrees,
            azimuth_offset_micrometers,
            _return_type: core::marker::PhantomData,
        })
    }

    /// Returns the per-channel elevation angles in millidegrees, wire
    /// order.
    pub fn elevation_millidegrees(&self) -> (r: &Vec<i32>)
        ensures
            r@ == self.spec_elevations(),
            r@.len() == CHANNEL_PER_FIRING,
    {
        proof {
            use_type_invariant(self);
        }
        &self.elevation_millidegrees
    }

    /// Returns the per-channel origin corrections in micrometers, wire
    /// order.
    pub fn azimuth_offset_micrometers(&self) -> (r: &Vec<i32>)
        ensures
            r@ == self.spec_offsets(),
            r@.len() == CHANNEL_PER_FIRING,
    {
        proof {
            use_type_invariant(self);
        }
        &self.azimuth_offset_micrometers
    }

    /// Returns the wire-to-sorted-by-elevation index permutation of this
    /// config: entry `i` is the wire index of the `i`-th highest elevation.
    pub fn sorted_elevation_order(&self) -> (r: Vec<usize>)
        ensures
            spec_is_permutation(r@, self.spec_elevations().len()),
            forall|i: int, j: int|
                0 <= i < j < r@.len() ==> self.spec_elevations()[r@[i] as int]
                    >= self.spec_elevations()[r@[j] as int],
    {
        proof {
            use_type_invariant(self);
        }
        sorted_elevation_order(&self.elevation_millidegrees)
    }
}

/// Factory calibration for a 32-channel sensor model, tagged at compile
/// time with the return mode it calibrates.
#[derive(Debug)]
pub struct Config32Channel<ReturnType: ReturnTypeMarker> {
    /// Per-channel elevation angle in millidegrees, wire order; positive is
    /// above horizontal.
    elevation_millidegrees: Vec<i32>,
    /// Per-channel origin correction in micrometers, wire order.
    azimuth_offset_micrometers: Vec<i32>,
    _return_type: core::marker::PhantomData<ReturnType>,
}

impl<ReturnType: ReturnTypeMarker> VelodyneConfigKind for Config32Channel<ReturnType> {

}

impl<ReturnType: ReturnTypeMarker> Config32Channel<ReturnType> {
    /// Every value of this type holds exactly 32 entries per array.
    #[verifier::type_invariant]
    spec fn type_inv(self) -> bool {
        self.elevation_millidegrees@.len() == 32
            && self.azimuth_offset_micrometers@.len() == 32
    }

    /// The per-channel elevation angles in millidegrees, wire order.
    pub closed spec fn spec_elevations(self) -> Seq<i32> {
        self.elevation_millidegrees@
    }

    /// The per-channel origin corrections in micrometers, wire order.
    pub closed spec fn spec_offsets(self) -> Seq<i32> {
        self.azimuth_offset_micrometers@
    }

    /// Builds a 32-channel calibration config. Fails exactly when an
    /// array's length is not 32; in-range numeric values are accepted
    /// as-is, with no semantic validation of the angles.
    pub fn new(
        elevation_millidegrees: Vec<i32>,
        azimuth_offset_micrometers: Vec<i32>,
    ) -> (r: Result<Self, CalibrationError>)
        ensures
            r is Ok <==> (elevation_millidegrees@.len() == 32
                && azimuth_offset_micrometers@.len() == 32),
            r matches Ok(c) ==> c.spec_elevations() == elevation_millidegrees@
                && c.spec_offsets() == azimuth_offset_micrometers@,
            r matches Err(e) ==> e == (CalibrationError::LengthMismatch {
                expected: 32,
                actual: if elevation_millidegrees@.len() != 32 {
                    elevation_millidegrees@.len() as usize
                } else {
                    azimuth_offset_micrometers@.len() as usize
                },
            }),
    {
        if elevation_millidegrees.len() != 32 {
            return Err(CalibrationError::LengthMismatch {
                expected: 32,
                actual: elevation_millidegrees.len(),
            });
        }
        if azimuth_offset_micrometers.len() != 32 {
            return Err(CalibrationError::LengthMismatch {
                expected: 32,
                actual: azimuth_offset_micrometers.len(),
            });
        }
        Ok(Config32Channel {
            elevation_millidegrees,
            azimuth_offset_micrometers,
            _return_type: core::marker::PhantomData,
        })
    }

    /// Returns the per-channel elevation angles in millidegrees, wire
    /// order.
    pub fn elevation_millidegrees(&self) -> (r: &Vec<i32>)
        ensures
            r@ == self.spec_elevations(),
            r@.len() == 32,
    {
        proof {
            use_type_invariant(self);
        }
        &self.elevation_millidegrees
    }

    /// Returns the per-channel origin corrections in micrometers, wire
    /// order.
    pub fn azimuth_offset_micrometers(&self) -> (r: &Vec<i32>)
        ensures
            r@ == self.spec_offsets(),
            r@.len() == 32,
    {
        proof {
            use_type_invariant(self);
        }
        &self.azimuth_offset_micrometers
    }

    /// Returns the wire-to-sorted-by-elevation index permutation of this
    /// config: entry `i` is the wire index of the `i`-th highest elevation.
    pub fn sorted_elevation_order(&self) -> (r: Vec<usize>)
        ensures
            spec_is_permutation(r@, self.spec_elevations().len()),
            forall|i: int, j: int|
                0 <= i < j < r@.len() ==> self.spec_elevations()[r@[i] as int]
                    >= self.spec_elevations()[r@[j] as int],
    {
        proof {
            use_type_invariant(self);
        }
        sorted_elevation_order(&self.elevation_millidegrees)
    }
}

/// A calibration config whose sensor model and return mode are selected at
/// run time rather than compile time.
pub enum DynamicConfig {
    StrongestReturn16Channel(Config16Channel<StrongestReturn>),
    LastReturn16Channel(Config16Channel<LastReturn>),
    DualReturn16Channel(Config16Channel<DualReturn>),
    StrongestReturn32Channel(Config32Channel<StrongestReturn>),
    LastReturn32Channel(Config32Channel<LastReturn>),
    DualReturn32Channel(Config32Channel<DualReturn>),
}

impl VelodyneConfigKind for DynamicConfig {

}

/// Whether `perm` lists each index below `n` exactly once.
pub open spec fn spec_is_permutation(perm: Seq<usize>, n: nat) -> bool {
    &&& perm.len() == n
    &&& forall|i: int| 0 <= i < perm.len() ==> (#[trigger] perm[i]) < n
    &&& forall|i: int, j: int| 0 <= i < j < perm.len() ==> perm[i] != perm[j]
}

/// Computes the wire-to-sorted-by-elevation index permutation of a raw
/// elevation array: entry `i` of the result is the wire index of the `i`-th
/// highest elevation, so reading the array through the result yields a
/// non-increasing sequence.
pub fn sorted_elevation_order(elevations: &Vec<i32>) -> (r: Vec<usize>)
    ensures
        spec_is_permutation(r@, elevations@.len()),
        forall|i: int, j: int|
            0 <= i < j < r@.len() ==> elevations@[r@[i] as int] >= elevations@[r@[j] as int],
{
    let n = elevations.len();
    let mut idx: Vec<usize> = Vec::new();
    let mut i: usize = 0;
    while i < n
        invariant
            i <= n,
            idx@.len() == i,
            forall|k: int| 0 <= k < i ==> idx@[k] == k,
        decreases n - i,
    {
        idx.push(i);
        i += 1;
    }
    let mut pos: usize = 0;
    while pos < n
        invariant
            pos <= n,
            n == elevations@.len(),
            spec_is_permutation(idx@, n as nat),
            // the prefix is sorted by descending elevation
            forall|a: int, b: int|
                0 <= a < b < pos ==> elevations@[idx@[a] as int] >= elevations@[idx@[b] as int],
            // every prefix entry dominates every suffix entry
            forall|a: int, b: int|
                0 <= a < pos <= b < n ==> elevations@[idx@[a] as int]
                    >= elevations@[idx@[b] as int],
        decreases n - pos,
    {
        let mut best: usize = pos;
        let mut k: usize = pos + 1;
        while k < n
            invariant
                pos <= best < k <= n,
                n == elevations@.len(),
                spec_is_permutation(idx@, n as nat),
                forall|t: int|
                    pos <= t < k ==> elevations@[idx@[best as int] as int]
                        >= elevations@[idx@[t] as int],
            decreases n - k,
        {
            if elevations[idx[k]] > elevations[idx[best]] {
                best = k;
            }
            k += 1;
        }
        let chosen = idx[best];
        let displaced = idx[pos];
        idx.set(pos, chosen);
        idx.set(best, displaced);
        proof {
            assert(forall|a: int, b: int|
                0 <= a < pos <= b < n ==> elevations@[idx@[a] as int]
                    >= elevations@[idx@[b] as int]);
        }
        pos += 1;
    }
    idx
}

/// When the elevations are pairwise distinct, a non-increasing reading
/// through a permutation is strictly decreasing: no two channels can tie.
pub proof fn lemma_sorted_order_strict(elevations: Seq<i32>, perm: Seq<usize>)
    requires
        spec_is_permutation(perm, elevations.len()),
        forall|i: int, j: int|
            0 <= i < j < perm.len() ==> elevations[perm[i] as int] >= elevations[perm[j] as int],
        forall|i: int, j: int|
            0 <= i < j < elevations.len() ==> elevations[i] != elevations[j],
    ensures
        forall|i: int, j: int|
            0 <= i < j < perm.len() ==> elevations[perm[i] as int] > elevations[perm[j] as int],
{
    assert forall|i: int, j: int|
        0 <= i < j < perm.len() implies elevations[perm[i] as int] > elevations[perm[j] as int] by {
        let a = perm[i] as int;
        let b = perm[j] as int;
        assert(a != b);
        if a < b {
            assert(elevations[a] != elevations[b]);
        } else {
            assert(elevations[b] != elevations[a]);
        }
    }
}

/// The factory elevation table of the 16-channel sensor model, in
/// millidegrees, wire order: lasers alternate between the lower and upper
/// half of the minus-15-to-15-degree fan.
pub fn vlp_16_elevation_millidegrees() -> (r: Vec<i32>)
    ensures
        r@ == seq![
            -15000i32, 1000i32, -13000i32, 3000i32, -11000i32, 5000i32, -9000i32, 7000i32,
            -7000i32, 9000i32, -5000i32, 11000i32, -3000i32, 13000i32, -1000i32, 15000i32,
        ],
{
    let mut v: Vec<i32> = Vec::new();
    v.push(-15000);
    v.push(1000);
    v.push(-13000);
    v.push(3000);
    v.push(-11000);
    v.push(5000);
    v.push(-9000);
    v.push(7000);
    v.push(-7000);
    v.push(9000);
    v.push(-5000);
    v.push(11000);
    v.push(-3000);
    v.push(13000);
    v.push(-1000);
    v.push(15000);
    proof {
        assert(v@ =~= seq![
            -15000i32, 1000i32, -13000i32, 3000i32, -11000i32, 5000i32, -9000i32, 7000i32,
            -7000i32, 9000i32, -5000i32, 11000i32, -3000i32, 13000i32, -1000i32, 15000i32,
        ]);
    }
    v
}

/// The 16-channel sensor has no per-channel origin correction in its
/// factory table: all entries are zero micrometers.
pub fn vlp_16_azimuth_offset_micrometers() -> (r: Vec<i32>)
    ensures
        r@.len() == CHANNEL_PER_FIRING,
        forall|c: int| 0 <= c < r@.len() ==> r@[c] == 0,
{
    let mut v: Vec<i32> = Vec::new();
    let mut i: usize = 0;
    while i < CHANNEL_PER_FIRING
        invariant
            i <= CHANNEL_PER_FIRING,
            v@.len() == i,
            forall|c: int| 0 <= c < i ==> v@[c] == 0,
        decreases CHANNEL_PER_FIRING - i,
    {
        v.push(0);
        i += 1;
    }
    v
}

} // verus!
