//! The orbital-element set and rotation parameters shared by every variant.
//!
//! Angles are held in microdegrees, the orbital period in milliseconds and the
//! eccentricity in parts per billion, so that every field is an exact integer;
//! the semi-major axis is an arbitrary-precision count of meters, since at
//! stellar scales it must not drift.

use vstd::prelude::*;

use crate::big::{big_clone, big_val};

verus! {

/// The mathematical content of an [`Orbit`]: every field as a plain number,
/// the semi-major axis as the unbounded integer it stands for.
pub ghost struct OrbitModel {
    pub eccentricity_ppb: u64,
    pub semi_major_axis_m: nat,
    pub inclination_udeg: i64,
    pub longitude_of_ascending_node_udeg: i64,
    pub argument_of_periapsis_udeg: i64,
    pub mean_anomaly_udeg: i64,
}

/// The orbital-element set of a non-root body.
#[derive(Debug)]
pub struct Orbit {
    /// Eccentricity in parts per billion (10^9 = an eccentricity of one).
    pub eccentricity_ppb: u64,
    /// Semi-major axis in meters, exact.
    pub semi_major_axis: num::BigUint,
    /// Inclination in microdegrees.
    pub inclination_udeg: i64,
    /// Longitude of the ascending node in microdegrees.
    pub longitude_of_ascending_node_udeg: i64,
    /// Argument of periapsis in microdegrees.
    pub argument_of_periapsis_udeg: i64,
    /// Mean anomaly in microdegrees.
    pub mean_anomaly_udeg: i64,
}

impl Orbit {
    /// The element set as plain numbers.
    pub open spec fn model(self) -> OrbitModel {
        OrbitModel {
            eccentricity_ppb: self.eccentricity_ppb,
            semi_major_axis_m: big_val(self.semi_major_axis),
            inclination_udeg: self.inclination_udeg,
            longitude_of_ascending_node_udeg: self.longitude_of_ascending_node_udeg,
            argument_of_periapsis_udeg: self.argument_of_periapsis_udeg,
            mean_anomaly_udeg: self.mean_anomaly_udeg,
        }
    }

    /// A snapshot of the element set: a fresh value with the same elements,
    /// handed out so that the caller never holds a live reference into an
    /// entity.
    pub fn duplicate(&self) -> (r: Orbit)
        ensures
            r.model() == self.model(),
    {
        Orbit {
            eccentricity_ppb: self.eccentricity_ppb,
            semi_major_axis: big_clone(&self.semi_major_axis),
            inclination_udeg: self.inclination_udeg,
            longitude_of_ascending_node_udeg: self.longitude_of_ascending_node_udeg,
            argument_of_periapsis_udeg: self.argument_of_periapsis_udeg,
            mean_anomaly_udeg: self.mean_anomaly_udeg,
        }
    }
}

/// The rotation parameters every variant carries.
#[derive(Debug, Clone, Copy, PartialEq, Eq, Structural)]
pub struct Rotation {
    /// Rotation period in milliseconds.
    pub period_ms: u64,
    /// Axial obliquity in microdegrees.
    pub obliquity_udeg: i64,
    /// Longitude of the equator's ascending node in microdegrees.
    pub eq_ascending_node_udeg: i64,
}

impl Default for Rotation {
    /// The all-zero rotation, used when no rotation is specified.
    fn default() -> (r: Self)
        ensures
            r.period_ms == 0,
            r.obliquity_udeg == 0,
            r.eq_ascending_node_udeg == 0,
    {
        Rotation { period_ms: 0, obliquity_udeg: 0, eq_ascending_node_udeg: 0 }
    }
}

} // verus!
