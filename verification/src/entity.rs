//! The entity capability contract: the one interface every celestial-object
//! variant satisfies, exposing parentage, orbit, rotation, exact mass and the
//! derived radius and escape velocity.
//!
//! The closed polymorphism over the variants is realized as a tagged sum type:
//! each variant's derivation logic — stored-and-returned-verbatim for stars
//! and planets, derived-on-access for automated assets — stays local to its
//! variant arm. Every operation is a read over immutable state; nothing here
//! mutates an entity.

use vstd::prelude::*;

use crate::automata::OrbitalAsset;
use crate::big::big_val;
use crate::orbit::{Orbit, OrbitModel, Rotation};
use crate::physics::{
    is_derived_escape_velocity_um_s, is_radius_um_of_mass, lemma_derived_escape_velocity_unique,
    lemma_icbrt_unique, scaled_volume,
};
use crate::planet::Planet;
use crate::star_stat::Star;
use crate::EntityId;

verus! {

/// Any simulated celestial object, dispatched to the variant that knows how
/// its derived quantities come about.
#[derive(Debug)]
pub enum CelestialBody {
    Star(Star),
    Planet(Planet),
    AutomatedAsset(OrbitalAsset),
}

impl CelestialBody {
    /// The handle of the body this one orbits.
    pub open spec fn spec_parent(self) -> Option<EntityId> {
        match self {
            CelestialBody::Star(s) => s.spec_parent(),
            CelestialBody::Planet(p) => p.spec_parent(),
            CelestialBody::AutomatedAsset(a) => a.spec_parent(),
        }
    }

    /// Whether the body has an orbit: every non-root body does, and only a
    /// root star does not.
    pub open spec fn spec_has_orbit(self) -> bool {
        match self {
            CelestialBody::Star(s) => s.spec_has_orbit(),
            CelestialBody::Planet(_) => true,
            CelestialBody::AutomatedAsset(_) => true,
        }
    }

    /// The body's orbital elements, as plain numbers, when it has any.
    pub open spec fn spec_orbit(self) -> OrbitModel
        recommends
            self.spec_has_orbit(),
    {
        match self {
            CelestialBody::Star(s) => s.spec_orbit(),
            CelestialBody::Planet(p) => p.spec_orbit(),
            CelestialBody::AutomatedAsset(a) => a.spec_orbit(),
        }
    }

    /// The body's rotation parameters.
    pub open spec fn spec_rotation(self) -> Rotation {
        match self {
            CelestialBody::Star(s) => s.spec_rotation(),
            CelestialBody::Planet(p) => p.spec_rotation(),
            CelestialBody::AutomatedAsset(a) => a.spec_rotation(),
        }
    }

    /// The body's exact mass in kilograms.
    pub open spec fn spec_mass(self) -> nat {
        match self {
            CelestialBody::Star(s) => s.spec_mass(),
            CelestialBody::Planet(p) => p.spec_mass(),
            CelestialBody::AutomatedAsset(a) => a.spec_mass(),
        }
    }

    /// `r` is what the body reports as its radius in micrometers: the stored
    /// value for a star or planet, the value derived from the mass for an
    /// automated asset.
    pub open spec fn is_radius_um(self, r: nat) -> bool {
        match self {
            CelestialBody::Star(s) => r == s.spec_radius_um(),
            CelestialBody::Planet(p) => r == p.spec_radius_um(),
            CelestialBody::AutomatedAsset(a) => is_radius_um_of_mass(a.spec_mass(), r),
        }
    }

    /// `v` is what the body reports as its escape velocity in micrometers per
    /// second: the stored value for a star or planet, the value derived from
    /// the mass and the derived radius for an automated asset.
    pub open spec fn is_escape_velocity_um_s(self, v: nat) -> bool {
        match self {
            CelestialBody::Star(s) => v == s.spec_escape_velocity_um_s(),
            CelestialBody::Planet(p) => v == p.spec_escape_velocity_um_s(),
            CelestialBody::AutomatedAsset(a) => is_derived_escape_velocity_um_s(a.spec_mass(), v),
        }
    }

    /// The handle of the body this one orbits, or `None` for a root body.
    pub fn parent(&self) -> (r: Option<EntityId>)
        ensures
            r == self.spec_parent(),
    {
        match self {
            CelestialBody::Star(s) => s.parent(),
            CelestialBody::Planet(p) => p.parent(),
            CelestialBody::AutomatedAsset(a) => a.parent(),
        }
    }

    /// A snapshot of the body's orbital elements: `None` exactly for a root
    /// star at the system origin.
    pub fn orbit(&self) -> (r: Option<Orbit>)
        ensures
            r is Some <==> self.spec_has_orbit(),
            self.spec_has_orbit() ==> r->Some_0.model() == self.spec_orbit(),
    {
        match self {
            CelestialBody::Star(s) => s.orbit(),
            CelestialBody::Planet(p) => p.orbit(),
            CelestialBody::AutomatedAsset(a) => a.orbit(),
        }
    }

    /// The body's rotation parameters.
    pub fn rotation(&self) -> (r: &Rotation)
        ensures
            *r == self.spec_rotation(),
    {
        match self {
            CelestialBody::Star(s) => s.rotation(),
            CelestialBody::Planet(p) => p.rotation(),
            CelestialBody::AutomatedAsset(a) => a.rotation(),
        }
    }

    /// The authoritative mass of the body, in kilograms, exact.
    pub fn mass(&self) -> (r: &num::BigUint)
        ensures
            big_val(*r) == self.spec_mass(),
    {
        match self {
            CelestialBody::Star(s) => s.mass(),
            CelestialBody::Planet(p) => p.mass(),
            CelestialBody::AutomatedAsset(a) => a.mass(),
        }
    }

    /// The body's radius in micrometers: returned verbatim from storage for a
    /// star or planet, derived from the mass for an automated asset.
    pub fn radius_um(&self) -> (r: num::BigUint)
        ensures
            self.is_radius_um(big_val(r)),
    {
        match self {
            CelestialBody::Star(s) => s.radius_um(),
            CelestialBody::Planet(p) => p.radius_um(),
            CelestialBody::AutomatedAsset(a) => a.radius_um(),
        }
    }

    /// Read accessors are idempotent: a body reports a single radius, so any
    /// two values meeting the radius contract are equal, and repeated calls of
    /// the accessor return the same count of micrometers. (The other accessors
    /// return a stored field verbatim, where the same follows directly; no
    /// operation of the contract mutates an entity.)
    pub proof fn lemma_radius_um_deterministic(self, r1: nat, r2: nat)
        requires
            self.is_radius_um(r1),
            self.is_radius_um(r2),
        ensures
            r1 == r2,
    {
        if let CelestialBody::AutomatedAsset(a) = self {
            lemma_icbrt_unique(scaled_volume(a.spec_mass()), r1, r2);
        }
    }

    /// Read accessors are idempotent, continued: a body reports a single
    /// escape velocity, so repeated calls of the accessor return the same
    /// count of micrometers per second.
    pub proof fn lemma_escape_velocity_um_s_deterministic(self, v1: nat, v2: nat)
        requires
            self.is_escape_velocity_um_s(v1),
            self.is_escape_velocity_um_s(v2),
        ensures
            v1 == v2,
    {
        if let CelestialBody::AutomatedAsset(a) = self {
            lemma_derived_escape_velocity_unique(a.spec_mass(), v1, v2);
        }
    }

    /// The body's escape velocity in micrometers per second: returned
    /// verbatim from storage for a star or planet, derived from the mass for
    /// an automated asset.
    pub fn escape_velocity_um_s(&self) -> (v: num::BigUint)
        ensures
            self.is_escape_velocity_um_s(big_val(v)),
    {
        match self {
            CelestialBody::Star(s) => s.escape_velocity_um_s(),
            CelestialBody::Planet(p) => p.escape_velocity_um_s(),
            CelestialBody::AutomatedAsset(a) => a.escape_velocity_um_s(),
        }
    }
}

} // verus!
