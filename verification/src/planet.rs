//! Planets: bodies whose radius and escape velocity were computed by the
//! generation process and are stored, then returned verbatim on every access.

use vstd::prelude::*;

use crate::automata::AutomataDetail;
use crate::big::{big_clone, big_val};
use crate::mineable::MineableMass;
use crate::orbit::{Orbit, OrbitModel, Rotation};
use crate::EntityId;

verus! {

/// A planet, fully formed by the generation process and immutable afterwards.
#[derive(Debug)]
pub struct Planet {
    mass: num::BigUint,
    orbit: Orbit,
    rotation: Rotation,
    parent: Option<EntityId>,
    escape_velocity_um_s: num::BigUint,
    /// The planet's kind.
    pub planet_type: PlanetType,
    /// Pre-computed radius in micrometers.
    pub radius_um: num::BigUint,
    /// Mineable-resource breakdown.
    pub mineable_mass: MineableMass,
    /// Automata present on the planet, if any.
    pub automata_mass: Option<AutomataDetail>,
}

impl Planet {
    /// The handle of the body this planet orbits.
    pub closed spec fn spec_parent(self) -> Option<EntityId> {
        self.parent
    }

    /// The planet's orbital elements, as plain numbers.
    pub closed spec fn spec_orbit(self) -> OrbitModel {
        self.orbit.model()
    }

    /// The planet's rotation parameters.
    pub closed spec fn spec_rotation(self) -> Rotation {
        self.rotation
    }

    /// The planet's exact mass in kilograms.
    pub closed spec fn spec_mass(self) -> nat {
        big_val(self.mass)
    }

    /// The stored radius in micrometers.
    pub closed spec fn spec_radius_um(self) -> nat {
        big_val(self.radius_um)
    }

    /// The stored escape velocity in micrometers per second.
    pub closed spec fn spec_escape_velocity_um_s(self) -> nat {
        big_val(self.escape_velocity_um_s)
    }

    /// The planet's kind.
    pub closed spec fn spec_planet_type(self) -> PlanetType {
        self.planet_type
    }

    /// The planet's mineable-resource breakdown.
    pub closed spec fn spec_mineable_mass(self) -> MineableMass {
        self.mineable_mass
    }

    /// The automata present on the planet, if any.
    pub closed spec fn spec_automata_mass(self) -> Option<AutomataDetail> {
        self.automata_mass
    }

    /// Assembles a fully-formed planet; entities are immutable once built.
    pub fn new(
        mass: num::BigUint,
        orbit: Orbit,
        rotation: Rotation,
        parent: Option<EntityId>,
        escape_velocity_um_s: num::BigUint,
        planet_type: PlanetType,
        radius_um: num::BigUint,
        mineable_mass: MineableMass,
        automata_mass: Option<AutomataDetail>,
    ) -> (r: Self)
        ensures
            r.spec_parent() == parent,
            r.spec_orbit() == orbit.model(),
            r.spec_rotation() == rotation,
            r.spec_mass() == big_val(mass),
            r.spec_radius_um() == big_val(radius_um),
            r.spec_escape_velocity_um_s() == big_val(escape_velocity_um_s),
            r.spec_planet_type() == planet_type,
            r.spec_mineable_mass() == mineable_mass,
            r.spec_automata_mass() == automata_mass,
    {
        Planet {
            mass,
            orbit,
            rotation,
            parent,
            escape_velocity_um_s,
            planet_type,
            radius_um,
            mineable_mass,
            automata_mass,
        }
    }

    /// The handle of the body this planet orbits, or `None` for a root body.
    pub fn parent(&self) -> (r: Option<EntityId>)
        ensures
            r == self.spec_parent(),
    {
        self.parent
    }

    /// A snapshot of the planet's orbital elements; a planet always orbits
    /// something, so this is never `None`.
    pub fn orbit(&self) -> (r: Option<Orbit>)
        ensures
            r is Some,
            r->Some_0.model() == self.spec_orbit(),
    {
        Some(self.orbit.duplicate())
    }

    /// The planet's rotation parameters.
    pub fn rotation(&self) -> (r: &Rotation)
        ensures
            *r == self.spec_rotation(),
    {
        &self.rotation
    }

    /// The authoritative mass of the planet, in kilograms, exact.
    pub fn mass(&self) -> (r: &num::BigUint)
        ensures
            big_val(*r) == self.spec_mass(),
    {
        &self.mass
    }

    /// The stored, pre-computed radius in micrometers, returned verbatim.
    pub fn radius_um(&self) -> (r: num::BigUint)
        ensures
            big_val(r) == self.spec_radius_um(),
    {
        big_clone(&self.radius_um)
    }

    /// The stored, pre-computed escape velocity in micrometers per second,
    /// returned verbatim. It is not recomputed from the mass: the generation
    /// process is responsible for keeping the two consistent.
    pub fn escape_velocity_um_s(&self) -> (v: num::BigUint)
        ensures
            big_val(v) == self.spec_escape_velocity_um_s(),
    {
        big_clone(&self.escape_velocity_um_s)
    }
}

/// The closed enumeration of planet kinds.
#[derive(Debug, Clone, Copy, PartialEq, Eq, Structural)]
pub enum PlanetType {
    BrownDwarf,
    GasGiant,
    IceGiant,
    LargeRocky,
    LargeIcey,
    RockyAsteroid,
    RockyDebrisDisk,
    IceAsteroid,
    IceDebrisDisk,
}

} // verus!
