//! The mineable-resource breakdown of a celestial body: a plain record read
//! and written by outside collaborators, with no behavior of its own.

use vstd::prelude::*;

verus! {

/// The mineable mass of a celestial body, by kind, in kilograms.
#[derive(Debug)]
pub struct MineableMass {
    /// Everything except hydrogen, helium, or rare gases.
    pub heavy_metals: num::BigUint,
    /// Hydrogen, helium and rare gases.
    pub volatiles: num::BigUint,
    /// Nuclides such as uranium, thorium or deuterium.
    pub nuclide: num::BigUint,
}

} // verus!
