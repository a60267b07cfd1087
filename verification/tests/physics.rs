//! The derivation formulas: exact expected values, spec tolerances, edge
//! cases and monotonicity on concrete masses.

use num::BigUint;
use npgs_sim::physics::{
    derived_radius_um, escape_velocity_um_s, ESCAPE_NUMERATOR, SPHERE_DIVISOR, VOLUME_NUMERATOR,
};

fn big(x: u128) -> BigUint {
    BigUint::from(x)
}

/// The mass in whole kilograms of a one-meter sphere at the assumed density:
/// `(4/3)·π·10000·1³ ≈ 41887.9 kg`, rounded to the nearest kilogram.
const ONE_METER_SPHERE_KG: u128 = 41888;

#[test]
fn radius_one_meter_by_construction() {
    // A sphere built to have radius exactly one meter must get it back from
    // its mass, within the stated relative tolerance of 1e-6 (here: to the
    // micrometer, and in fact exactly).
    let r = derived_radius_um(&big(ONE_METER_SPHERE_KG));
    assert_eq!(r, big(1_000_000));
}

#[test]
fn radius_follows_formula_exactly() {
    // The same derivation spelled out digit for digit on a larger mass:
    // radius = ∛(m · 3·10^34 / (4·π·10^20)) micrometers, truncated.
    let m = big(4_188_790_205);
    let r = derived_radius_um(&m);
    assert_eq!(r, big(46_415_888));

    // Black-box check of the defining inequality r³ ≤ scaled < (r+1)³.
    let scaled = &m * &big(VOLUME_NUMERATOR) / &big(SPHERE_DIVISOR);
    assert!(&r * &r * &r <= scaled);
    let r1 = &r + &big(1);
    assert!(scaled < &r1 * &r1 * &r1);
}

#[test]
fn escape_velocity_earth_scale() {
    // Earth's mass and radius must give the familiar 11,186 m/s within 1%.
    let mass = big(5972) * big(10u128.pow(21));
    let radius_um = big(6_371_000_000_000);
    let v = escape_velocity_um_s(&mass, &radius_um);
    assert_eq!(v, big(11_185_977_891));

    let lower = big(11_186_000_000 - 111_860_000);
    let upper = big(11_186_000_000 + 111_860_000);
    assert!(lower <= v && v <= upper);

    // Black-box check of the defining inequality v² ≤ radicand < (v+1)².
    let radicand = &mass * &big(ESCAPE_NUMERATOR) / &radius_um;
    assert!(&v * &v <= radicand);
    let v1 = &v + &big(1);
    assert!(radicand < &v1 * &v1);
}

#[test]
fn zero_mass_gives_zero_radius_and_velocity() {
    let zero = big(0);
    let r = derived_radius_um(&zero);
    assert_eq!(r, big(0));
    let v = escape_velocity_um_s(&zero, &r);
    assert_eq!(v, big(0));
}

#[test]
fn zero_radius_gives_zero_velocity() {
    let v = escape_velocity_um_s(&big(123_456), &big(0));
    assert_eq!(v, big(0));
}

#[test]
fn one_kilogram_sphere() {
    let one = big(1);
    let r = derived_radius_um(&one);
    assert_eq!(r, big(28_794));
    let v = escape_velocity_um_s(&one, &r);
    assert_eq!(v, big(68));
}

#[test]
fn stellar_scale_masses_stay_exact() {
    // 10^30 kg is beyond what a 64-bit float can hold exactly; the integer
    // derivation neither overflows nor drifts.
    let m = big(10u128.pow(15)) * big(10u128.pow(15));
    let r = derived_radius_um(&m);
    assert_eq!(r, big(287_941_191_148_486));
    let v = escape_velocity_um_s(&m, &r);
    assert_eq!(v, big(680_872_762_682));
}

#[test]
fn radius_monotone_on_samples() {
    let masses: [u128; 6] = [0, 1, 2, 1000, 1_000_000, 4_188_790_205];
    let mut previous = derived_radius_um(&big(masses[0]));
    for m in &masses[1..] {
        let r = derived_radius_um(&big(*m));
        assert!(previous < r);
        previous = r;
    }
}

#[test]
fn escape_velocity_monotone_on_samples() {
    let masses: [u128; 5] = [1, 2, 1000, 1_000_000, 4_188_790_205];
    let mut previous = big(0);
    for m in masses {
        let mass = big(m);
        let r = derived_radius_um(&mass);
        let v = escape_velocity_um_s(&mass, &r);
        assert!(previous < v);
        previous = v;
    }
}

#[test]
fn derivation_is_idempotent() {
    let mass = big(4_188_790_205);
    let r1 = derived_radius_um(&mass);
    let r2 = derived_radius_um(&mass);
    assert_eq!(r1, r2);
    let v1 = escape_velocity_um_s(&mass, &r1);
    let v2 = escape_velocity_um_s(&mass, &r2);
    assert_eq!(v1, v2);
}
