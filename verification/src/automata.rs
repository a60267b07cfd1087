//! Automated machines in the simulation: self-replicating industrial
//! installations in orbit, whose radius and escape velocity are never stored
//! but derived on every access from their mass under the assumed density.

use vstd::prelude::*;

use crate::big::big_val;
use crate::orbit::{Orbit, OrbitModel, Rotation};
use crate::physics::{
    derived_radius_um, escape_velocity_um_s, is_derived_escape_velocity_um_s, is_radius_um_of_mass,
};
use crate::EntityId;

verus! {

/// The resource-accounting breakdown of an automated asset: a plain record
/// read and written by outside collaborators, with no behavior of its own.
#[derive(Debug)]
pub struct AutomataDetail {
    /// Low power consumption factory mass, in kilograms.
    pub factory_mass: num::BigUint,
    /// High tech, high power consumption factory mass, in kilograms.
    pub high_tech_mass: num::BigUint,
    /// Total mass of the photoelectric cells, in kilograms.
    pub photoelectric_mass: num::BigUint,
    /// Resources in storage.
    pub storage: StorageResource,
}

/// Resources held in an automated asset's storage, in kilograms.
#[derive(Debug)]
pub struct StorageResource {
    pub heavy_metals: num::BigUint,
    pub volatiles: num::BigUint,
    pub nuclide: num::BigUint,
}

/// A self-replicating industrial installation in orbit. Unlike a star or a
/// planet it stores no radius and no escape velocity: both are derived on
/// every access from its mass under the assumed automata density.
#[derive(Debug)]
pub struct OrbitalAsset {
    parent: Option<EntityId>,
    orbit: Orbit,
    rotation: Rotation,
    mass: num::BigUint,
    /// Resource and factory accounting.
    pub automata: AutomataDetail,
}

impl OrbitalAsset {
    /// The handle of the body this asset orbits.
    pub closed spec fn spec_parent(self) -> Option<EntityId> {
        self.parent
    }

    /// The asset's orbital elements, as plain numbers.
    pub closed spec fn spec_orbit(self) -> OrbitModel {
        self.orbit.model()
    }

    /// The asset's rotation parameters.
    pub closed spec fn spec_rotation(self) -> Rotation {
        self.rotation
    }

    /// The asset's exact mass in kilograms.
    pub closed spec fn spec_mass(self) -> nat {
        big_val(self.mass)
    }

    /// The asset's resource and factory accounting.
    pub closed spec fn spec_automata(self) -> AutomataDetail {
        self.automata
    }

    /// Assembles a fully-formed asset; entities are immutable once built.
    pub fn new(
        parent: Option<EntityId>,
        orbit: Orbit,
        rotation: Rotation,
        mass: num::BigUint,
        automata: AutomataDetail,
    ) -> (r: Self)
        ensures
            r.spec_parent() == parent,
            r.spec_orbit() == orbit.model(),
            r.spec_rotation() == rotation,
            r.spec_mass() == big_val(mass),
            r.spec_automata() == automata,
    {
        OrbitalAsset { parent, orbit, rotation, mass, automata }
    }

    /// The handle of the body this asset orbits, or `None` for a root body.
    pub fn parent(&self) -> (r: Option<EntityId>)
        ensures
            r == self.spec_parent(),
    {
        self.parent
    }

    /// A snapshot of the asset's orbital elements; an asset always orbits
    /// something, so this is never `None`.
    pub fn orbit(&self) -> (r: Option<Orbit>)
        ensures
            r is Some,
            r->Some_0.model() == self.spec_orbit(),
    {
        Some(self.orbit.duplicate())
    }

    /// The asset's rotation parameters.
    pub fn rotation(&self) -> (r: &Rotation)
        ensures
            *r == self.spec_rotation(),
    {
        &self.rotation
    }

    /// The authoritative mass of the asset, in kilograms, exact.
    pub fn mass(&self) -> (r: &num::BigUint)
        ensures
            big_val(*r) == self.spec_mass(),
    {
        &self.mass
    }

    /// The asset's radius in micrometers, derived on every access from its
    /// mass under the assumed automata density.
    pub fn radius_um(&self) -> (r: num::BigUint)
        ensures
            is_radius_um_of_mass(self.spec_mass(), big_val(r)),
    {
        derived_radius_um(&self.mass)
    }

    /// The asset's escape velocity in micrometers per second, derived on
    /// every access from its mass and its derived radius.
    pub fn escape_velocity_um_s(&self) -> (v: num::BigUint)
        ensures
            is_derived_escape_velocity_um_s(self.spec_mass(), big_val(v)),
    {
        let radius = derived_radius_um(&self.mass);
        escape_velocity_um_s(&self.mass, &radius)
    }
}

} // verus!
