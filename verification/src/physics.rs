//! Derivation of secondary physical quantities from primary ones.
//!
//! An automated asset stores no radius: it is modeled as a uniform sphere of
//! fixed bulk density, so its radius follows from its mass alone as
//! `r = ∛(3·m / (4·π·ρ))`. Every body's escape velocity follows from its mass
//! and radius as `v = √(2·G·m / r)`.
//!
//! Both formulas are evaluated exactly over the integers: lengths in
//! micrometers, speeds in micrometers per second, with π carried to twenty
//! decimal digits and the roots truncated. The results are therefore
//! reproducible bit for bit, and their defining inequalities are proved rather
//! than approximated.

use vstd::prelude::*;

use crate::big::{big_cbrt, big_div, big_from_u128, big_is_zero, big_mul, big_sqrt, big_val};

verus! {

/// The assumed bulk density of an automated asset, in kg/m³: dense artificial
/// construction materials.
pub const AUTOMATA_DENSITY_KG_M3: u64 = 10_000;

/// π scaled by 10^20, rounded to the nearest integer.
pub const PI_TIMES_1E20: u128 = 314159265358979323846;

/// Numerator of the sphere-volume inversion at the assumed density, scaled so
/// that the cube root comes out in micrometers: `3 · 10^14 · 10^20`, where
/// `10^14 = 10^18 / ρ` folds in the density of 10^4 kg/m³ and the meter-to-
/// micrometer cubing factor `10^18`, and `10^20` matches the scale of π.
pub const VOLUME_NUMERATOR: u128 = 30_000_000_000_000_000_000_000_000_000_000_000;

/// Denominator of the sphere-volume inversion: `4 · π · 10^20`.
pub const SPHERE_DIVISOR: u128 = 4 * PI_TIMES_1E20;

/// `2 · G · 10^18`, with the gravitational constant
/// `G = 6.67430·10⁻¹¹ m³·kg⁻¹·s⁻²` (so the product is exact): dividing a mass
/// in kilograms by a radius in micrometers and scaling by this constant gives
/// the square of the escape velocity in micrometers per second.
pub const ESCAPE_NUMERATOR: u128 = 133_486_000;

/// `r` is the truncated integer cube root of `n`.
pub open spec fn is_icbrt(n: nat, r: nat) -> bool {
    r * r * r <= n < (r + 1) * (r + 1) * (r + 1)
}

/// `r` is the truncated integer square root of `n`.
pub open spec fn is_isqrt(n: nat, r: nat) -> bool {
    r * r <= n < (r + 1) * (r + 1)
}

/// The cube of the radius in micrometers of a uniform sphere of the given
/// mass (kg) at the assumed automata density, to within the truncation of the
/// final division.
pub open spec fn scaled_volume(mass: nat) -> nat {
    (mass * (VOLUME_NUMERATOR as nat)) / (SPHERE_DIVISOR as nat)
}

/// `r` is the derived radius, in micrometers, of an automated asset of the
/// given mass in kilograms.
pub open spec fn is_radius_um_of_mass(mass: nat, r: nat) -> bool {
    is_icbrt(scaled_volume(mass), r)
}

/// The square of the escape velocity in micrometers per second of a body of
/// the given mass (kg) and radius (µm), to within the truncation of the
/// division.
pub open spec fn escape_radicand(mass: nat, radius_um: nat) -> nat
    recommends
        radius_um > 0,
{
    (mass * (ESCAPE_NUMERATOR as nat)) / radius_um
}

/// `v` is the escape velocity, in micrometers per second, of a body of the
/// given mass (kg) and radius (µm). A body of zero radius — which the
/// derivation produces only for zero mass — is given escape velocity zero.
pub open spec fn is_escape_velocity_um_s(mass: nat, radius_um: nat, v: nat) -> bool {
    if radius_um == 0 {
        v == 0
    } else {
        is_isqrt(escape_radicand(mass, radius_um), v)
    }
}

/// `v` is the escape velocity of an automated asset of the given mass, at the
/// radius derived from that same mass.
pub open spec fn is_derived_escape_velocity_um_s(mass: nat, v: nat) -> bool {
    exists|r_um: nat|
        #[trigger] is_radius_um_of_mass(mass, r_um) && is_escape_velocity_um_s(mass, r_um, v)
}

/// The radius in micrometers of a uniform sphere of mass `mass` kilograms at
/// the assumed automata density: `∛(3·m / (4·π·ρ))` meters, scaled to
/// micrometers and truncated.
pub fn derived_radius_um(mass: &num::BigUint) -> (r: num::BigUint)
    ensures
        is_radius_um_of_mass(big_val(*mass), big_val(r)),
{
    let numerator = big_from_u128(VOLUME_NUMERATOR);
    let divisor = big_from_u128(SPHERE_DIVISOR);
    let volume = big_mul(mass, &numerator);
    let scaled = big_div(&volume, &divisor);
    big_cbrt(&scaled)
}

/// The escape velocity in micrometers per second of a body of mass `mass`
/// kilograms and radius `radius_um` micrometers: `√(2·G·m / r)` meters per
/// second, scaled to micrometers per second and truncated; zero for a body of
/// zero radius.
pub fn escape_velocity_um_s(mass: &num::BigUint, radius_um: &num::BigUint) -> (v: num::BigUint)
    ensures
        is_escape_velocity_um_s(big_val(*mass), big_val(*radius_um), big_val(v)),
{
    if big_is_zero(radius_um) {
        big_from_u128(0)
    } else {
        let numerator = big_from_u128(ESCAPE_NUMERATOR);
        let product = big_mul(mass, &numerator);
        let radicand = big_div(&product, radius_um);
        big_sqrt(&radicand)
    }
}

/// Cubing preserves order on the naturals.
proof fn lemma_cube_monotone(a: nat, b: nat)
    by (nonlinear_arith)
    requires
        a <= b,
    ensures
        a * a * a <= b * b * b,
{
}

/// Squaring preserves order on the naturals.
proof fn lemma_square_monotone(a: nat, b: nat)
    by (nonlinear_arith)
    requires
        a <= b,
    ensures
        a * a <= b * b,
{
}

/// A natural number has at most one truncated cube root: any accessor that
/// reports a derived radius reports the same value on every call.
pub proof fn lemma_icbrt_unique(n: nat, r1: nat, r2: nat)
    requires
        is_icbrt(n, r1),
        is_icbrt(n, r2),
    ensures
        r1 == r2,
{
    if r1 < r2 {
        lemma_cube_monotone((r1 + 1) as nat, r2);
    }
    if r2 < r1 {
        lemma_cube_monotone((r2 + 1) as nat, r1);
    }
}

/// A natural number has at most one truncated square root: any accessor that
/// reports an escape velocity reports the same value on every call.
pub proof fn lemma_isqrt_unique(n: nat, r1: nat, r2: nat)
    requires
        is_isqrt(n, r1),
        is_isqrt(n, r2),
    ensures
        r1 == r2,
{
    if r1 < r2 {
        lemma_square_monotone((r1 + 1) as nat, r2);
    }
    if r2 < r1 {
        lemma_square_monotone((r2 + 1) as nat, r1);
    }
}

/// The truncated cube root preserves order.
pub proof fn lemma_icbrt_monotone(n1: nat, n2: nat, r1: nat, r2: nat)
    requires
        n1 <= n2,
        is_icbrt(n1, r1),
        is_icbrt(n2, r2),
    ensures
        r1 <= r2,
{
    if r2 < r1 {
        lemma_cube_monotone((r2 + 1) as nat, r1);
    }
}

/// The truncated square root preserves order.
pub proof fn lemma_isqrt_monotone(n1: nat, n2: nat, r1: nat, r2: nat)
    requires
        n1 <= n2,
        is_isqrt(n1, r1),
        is_isqrt(n2, r2),
    ensures
        r1 <= r2,
{
    if r2 < r1 {
        lemma_square_monotone((r2 + 1) as nat, r1);
    }
}

/// Of two automated assets at the same assumed density, the heavier one never
/// has the smaller derived radius.
pub proof fn lemma_radius_monotone(m1: nat, m2: nat, r1: nat, r2: nat)
    requires
        m1 <= m2,
        is_radius_um_of_mass(m1, r1),
        is_radius_um_of_mass(m2, r2),
    ensures
        r1 <= r2,
{
    assert(m1 * (VOLUME_NUMERATOR as nat) <= m2 * (VOLUME_NUMERATOR as nat)) by (nonlinear_arith)
        requires
            m1 <= m2,
    ;
    vstd::arithmetic::div_mod::lemma_div_is_ordered(
        (m1 * (VOLUME_NUMERATOR as nat)) as int,
        (m2 * (VOLUME_NUMERATOR as nat)) as int,
        SPHERE_DIVISOR as int,
    );
    lemma_icbrt_monotone(scaled_volume(m1), scaled_volume(m2), r1, r2);
}

/// Strict growth of the derived radius: once the heavier asset's scaled
/// volume reaches the next whole cube, its radius is strictly larger. (For
/// masses closer together than that, truncation to whole micrometers can make
/// the two radii equal.)
pub proof fn lemma_radius_strictly_monotone(m1: nat, m2: nat, r1: nat, r2: nat)
    requires
        is_radius_um_of_mass(m1, r1),
        is_radius_um_of_mass(m2, r2),
        (r1 + 1) * (r1 + 1) * (r1 + 1) <= scaled_volume(m2),
    ensures
        r1 < r2,
{
    if r2 <= r1 {
        lemma_cube_monotone((r2 + 1) as nat, (r1 + 1) as nat);
    }
}

/// The escape velocity never shrinks when the scaled ratio of mass to radius
/// grows. (Mass alone does not order the escape velocities of two derived
/// assets: at a mass where the truncated radius steps up by a whole
/// micrometer, the truncated velocity can step down.)
pub proof fn lemma_escape_velocity_monotone(
    m1: nat,
    ru1: nat,
    v1: nat,
    m2: nat,
    ru2: nat,
    v2: nat,
)
    requires
        ru1 > 0,
        ru2 > 0,
        escape_radicand(m1, ru1) <= escape_radicand(m2, ru2),
        is_escape_velocity_um_s(m1, ru1, v1),
        is_escape_velocity_um_s(m2, ru2, v2),
    ensures
        v1 <= v2,
{
    lemma_isqrt_monotone(escape_radicand(m1, ru1), escape_radicand(m2, ru2), v1, v2);
}

/// Strict growth of the escape velocity: once the second body's scaled
/// mass-to-radius ratio reaches the next whole square, its escape velocity is
/// strictly larger.
pub proof fn lemma_escape_velocity_strictly_monotone(
    m1: nat,
    ru1: nat,
    v1: nat,
    m2: nat,
    ru2: nat,
    v2: nat,
)
    requires
        ru1 > 0,
        ru2 > 0,
        is_escape_velocity_um_s(m1, ru1, v1),
        is_escape_velocity_um_s(m2, ru2, v2),
        (v1 + 1) * (v1 + 1) <= escape_radicand(m2, ru2),
    ensures
        v1 < v2,
{
    if v2 <= v1 {
        lemma_square_monotone((v2 + 1) as nat, (v1 + 1) as nat);
    }
}

/// An automated asset's derived escape velocity is a function of its mass
/// alone: however the derivation is replayed, the same mass gives the same
/// velocity.
pub proof fn lemma_derived_escape_velocity_unique(mass: nat, v1: nat, v2: nat)
    requires
        is_derived_escape_velocity_um_s(mass, v1),
        is_derived_escape_velocity_um_s(mass, v2),
    ensures
        v1 == v2,
{
    let ru1 = choose|r_um: nat|
        #[trigger] is_radius_um_of_mass(mass, r_um) && is_escape_velocity_um_s(mass, r_um, v1);
    let ru2 = choose|r_um: nat|
        #[trigger] is_radius_um_of_mass(mass, r_um) && is_escape_velocity_um_s(mass, r_um, v2);
    lemma_icbrt_unique(scaled_volume(mass), ru1, ru2);
    if ru1 > 0 {
        lemma_isqrt_unique(escape_radicand(mass, ru1), v1, v2);
    }
}

} // verus!
