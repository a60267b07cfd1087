//! Stars: bodies whose radius and escape velocity were computed by the
//! generation process and are stored, then returned verbatim on every access.
//!
//! The spectral-attribute bag a star carries (luminosity, effective
//! temperature and the like) is an inert record of measured quantities with no
//! behavior; it lives with the unverified shell around this crate.

use vstd::prelude::*;

use crate::big::{big_clone, big_val};
use crate::orbit::{Orbit, OrbitModel, Rotation};
use crate::EntityId;

verus! {

/// A star, fully formed by the generation process and immutable afterwards.
#[derive(Debug)]
pub struct Star {
    parent: Option<EntityId>,
    mass: num::BigUint,
    radius_um: num::BigUint,
    escape_velocity_um_s: num::BigUint,
    /// For one star of a binary pair this describes its orbit around the
    /// barycenter; a single star at the system origin has no orbit.
    orbit: Option<Orbit>,
    rotation: Rotation,
}

impl Star {
    /// The handle of the body this star orbits.
    pub closed spec fn spec_parent(self) -> Option<EntityId> {
        self.parent
    }

    /// Whether the star has an orbit at all: a root star does not.
    pub closed spec fn spec_has_orbit(self) -> bool {
        self.orbit is Some
    }

    /// The star's orbital elements, as plain numbers, when it has any.
    pub closed spec fn spec_orbit(self) -> OrbitModel
        recommends
            self.spec_has_orbit(),
    {
        self.orbit->Some_0.model()
    }

    /// The star's rotation parameters.
    pub closed spec fn spec_rotation(self) -> Rotation {
        self.rotation
    }

    /// The star's exact mass in kilograms.
    pub closed spec fn spec_mass(self) -> nat {
        big_val(self.mass)
    }

    /// The stored radius in micrometers.
    pub closed spec fn spec_radius_um(self) -> nat {
        big_val(self.radius_um)
    }

    /// The stored escape velocity in micrometers per second.
    pub closed spec fn spec_escape_velocity_um_s(self) -> nat {
        big_val(self.escape_velocity_um_s)
    }

    /// Assembles a fully-formed star; entities are immutable once built.
    pub fn new(
        parent: Option<EntityId>,
        mass: num::BigUint,
        radius_um: num::BigUint,
        escape_velocity_um_s: num::BigUint,
        orbit: Option<Orbit>,
        rotation: Rotation,
    ) -> (r: Self)
        ensures
            r.spec_parent() == parent,
            r.spec_has_orbit() <==> orbit is Some,
            orbit is Some ==> r.spec_orbit() == orbit->Some_0.model(),
            r.spec_rotation() == rotation,
            r.spec_mass() == big_val(mass),
            r.spec_radius_um() == big_val(radius_um),
            r.spec_escape_velocity_um_s() == big_val(escape_velocity_um_s),
    {
        Star { parent, mass, radius_um, escape_velocity_um_s, orbit, rotation }
    }

    /// The handle of the body this star orbits, or `None` for a root star.
    pub fn parent(&self) -> (r: Option<EntityId>)
        ensures
            r == self.spec_parent(),
    {
        self.parent
    }

    /// A snapshot of the star's orbital elements: `Some` for one star of a
    /// binary pair, `None` for a single star at the system origin.
    pub fn orbit(&self) -> (r: Option<Orbit>)
        ensures
            r is Some <==> self.spec_has_orbit(),
            self.spec_has_orbit() ==> r->Some_0.model() == self.spec_orbit(),
    {
        match &self.orbit {
            Some(o) => Some(o.duplicate()),
            None => None,
        }
    }

    /// The star's rotation parameters.
    pub fn rotation(&self) -> (r: &Rotation)
        ensures
            *r == self.spec_rotation(),
    {
        &self.rotation
    }

    /// The authoritative mass of the star, in kilograms, exact.
    pub fn mass(&self) -> (r: &num::BigUint)
        ensures
            big_val(*r) == self.spec_mass(),
    {
        &self.mass
    }

    /// The stored, pre-computed radius in micrometers, returned verbatim.
    pub fn radius_um(&self) -> (r: num::BigUint)
        ensures
            big_val(r) == self.spec_radius_um(),
    {
        big_clone(&self.radius_um)
    }

    /// The stored, pre-computed escape velocity in micrometers per second,
    /// returned verbatim. It is not recomputed from the mass: the generation
    /// process is responsible for keeping the two consistent.
    pub fn escape_velocity_um_s(&self) -> (v: num::BigUint)
        ensures
            big_val(v) == self.spec_escape_velocity_um_s(),
    {
        big_clone(&self.escape_velocity_um_s)
    }
}

} // verus!
