//! The capability contract over the three variants: stored values returned
//! verbatim, derived values matching the derivation, and idempotent reads.

use num::BigUint;
use npgs_sim::automata::{AutomataDetail, OrbitalAsset, StorageResource};
use npgs_sim::entity::CelestialBody;
use npgs_sim::mineable::MineableMass;
use npgs_sim::orbit::{Orbit, Rotation};
use npgs_sim::physics::{derived_radius_um, escape_velocity_um_s};
use npgs_sim::planet::{Planet, PlanetType};
use npgs_sim::star_stat::Star;
use npgs_sim::{EntityId, EntityType};

fn big(x: u128) -> BigUint {
    BigUint::from(x)
}

fn sample_orbit() -> Orbit {
    Orbit {
        eccentricity_ppb: 16_700_000,
        semi_major_axis: big(149_597_870_895),
        inclination_udeg: 1_578_690,
        longitude_of_ascending_node_udeg: -11_260_640,
        argument_of_periapsis_udeg: 114_207_830,
        mean_anomaly_udeg: 358_617_000,
    }
}

fn sample_rotation() -> Rotation {
    Rotation {
        period_ms: 86_164_091,
        obliquity_udeg: 23_439_281,
        eq_ascending_node_udeg: 0,
    }
}

fn sample_automata() -> AutomataDetail {
    AutomataDetail {
        factory_mass: big(1_000),
        high_tech_mass: big(200),
        photoelectric_mass: big(50),
        storage: StorageResource {
            heavy_metals: big(7),
            volatiles: big(8),
            nuclide: big(9),
        },
    }
}

fn sample_mineable() -> MineableMass {
    MineableMass {
        heavy_metals: big(11),
        volatiles: big(12),
        nuclide: big(13),
    }
}

#[test]
fn star_returns_stored_values_verbatim() {
    let star = Star::new(
        None,
        big(1_988_470) * big(10u128.pow(24)),
        big(696_342_000_000_000),
        big(617_540_000_000),
        None,
        Rotation::default(),
    );
    assert!(star.parent().is_none());
    assert!(star.orbit().is_none());
    assert_eq!(*star.rotation(), Rotation::default());
    assert_eq!(*star.mass(), big(1_988_470) * big(10u128.pow(24)));
    assert_eq!(star.radius_um(), big(696_342_000_000_000));
    assert_eq!(star.escape_velocity_um_s(), big(617_540_000_000));
}

#[test]
fn binary_star_reports_its_orbit() {
    let primary = EntityId::new(0, EntityType::Star);
    let star = Star::new(
        Some(primary),
        big(10u128.pow(29)),
        big(10u128.pow(14)),
        big(10u128.pow(11)),
        Some(sample_orbit()),
        sample_rotation(),
    );
    let parent = star.parent().expect("companion star has a parent");
    assert_eq!(parent.id(), 0);
    assert_eq!(parent.entity_type(), Ok(EntityType::Star));
    let orbit = star.orbit().expect("companion star has an orbit");
    assert_eq!(orbit.semi_major_axis, big(149_597_870_895));
    assert_eq!(orbit.eccentricity_ppb, 16_700_000);
}

#[test]
fn planet_returns_stored_values_verbatim() {
    let sun = EntityId::new(0, EntityType::Star);
    let planet = Planet::new(
        big(5972) * big(10u128.pow(21)),
        sample_orbit(),
        sample_rotation(),
        Some(sun),
        big(11_186_000_000),
        PlanetType::LargeRocky,
        big(6_371_000_000_000),
        sample_mineable(),
        None,
    );
    let parent = planet.parent().expect("planet orbits the star");
    assert_eq!(parent.entity_type(), Ok(EntityType::Star));
    let orbit = planet.orbit().expect("planet always has an orbit");
    assert_eq!(orbit.inclination_udeg, 1_578_690);
    assert_eq!(orbit.mean_anomaly_udeg, 358_617_000);
    assert_eq!(*planet.rotation(), sample_rotation());
    assert_eq!(*planet.mass(), big(5972) * big(10u128.pow(21)));
    assert_eq!(planet.radius_um(), big(6_371_000_000_000));
    assert_eq!(planet.escape_velocity_um_s(), big(11_186_000_000));
    assert!(matches!(planet.planet_type, PlanetType::LargeRocky));
}

#[test]
fn automated_asset_derives_radius_and_escape_velocity() {
    let planet_id = EntityId::new(3, EntityType::Planet);
    let asset = OrbitalAsset::new(
        Some(planet_id),
        sample_orbit(),
        Rotation::default(),
        big(41_888),
        sample_automata(),
    );
    // One-meter sphere by construction: radius comes back as 10^6 µm.
    assert_eq!(asset.radius_um(), big(1_000_000));
    // And the derived escape velocity matches the standalone derivation.
    let expected_v = escape_velocity_um_s(&big(41_888), &big(1_000_000));
    assert_eq!(asset.escape_velocity_um_s(), expected_v);
    assert_eq!(*asset.mass(), big(41_888));
    assert_eq!(asset.automata.factory_mass, big(1_000));
}

#[test]
fn celestial_body_dispatches_to_each_variant() {
    let star = CelestialBody::Star(Star::new(
        None,
        big(10u128.pow(30)),
        big(696_342_000_000_000),
        big(617_540_000_000),
        None,
        Rotation::default(),
    ));
    assert!(star.parent().is_none());
    assert!(star.orbit().is_none());
    assert_eq!(star.radius_um(), big(696_342_000_000_000));
    assert_eq!(star.escape_velocity_um_s(), big(617_540_000_000));

    let planet = CelestialBody::Planet(Planet::new(
        big(5972) * big(10u128.pow(21)),
        sample_orbit(),
        sample_rotation(),
        Some(EntityId::new(0, EntityType::Star)),
        big(11_186_000_000),
        PlanetType::LargeRocky,
        big(6_371_000_000_000),
        sample_mineable(),
        Some(sample_automata()),
    ));
    assert!(planet.orbit().is_some());
    assert_eq!(planet.radius_um(), big(6_371_000_000_000));
    assert_eq!(*planet.mass(), big(5972) * big(10u128.pow(21)));

    let mass = big(4_188_790_205);
    let asset = CelestialBody::AutomatedAsset(OrbitalAsset::new(
        Some(EntityId::new(3, EntityType::Planet)),
        sample_orbit(),
        Rotation::default(),
        big(4_188_790_205),
        sample_automata(),
    ));
    let r = asset.radius_um();
    assert_eq!(r, derived_radius_um(&mass));
    assert_eq!(asset.escape_velocity_um_s(), escape_velocity_um_s(&mass, &r));
}

#[test]
fn read_accessors_are_idempotent() {
    let asset = OrbitalAsset::new(
        Some(EntityId::new(9, EntityType::Planet)),
        sample_orbit(),
        sample_rotation(),
        big(4_188_790_205),
        sample_automata(),
    );
    assert_eq!(asset.parent().map(|p| p.raw()), asset.parent().map(|p| p.raw()));
    let o1 = asset.orbit().unwrap();
    let o2 = asset.orbit().unwrap();
    assert_eq!(o1.semi_major_axis, o2.semi_major_axis);
    assert_eq!(o1.eccentricity_ppb, o2.eccentricity_ppb);
    assert_eq!(asset.rotation(), asset.rotation());
    assert_eq!(asset.mass(), asset.mass());
    assert_eq!(asset.radius_um(), asset.radius_um());
    assert_eq!(asset.escape_velocity_um_s(), asset.escape_velocity_um_s());
}

#[test]
fn rotation_defaults_to_all_zero() {
    let r = Rotation::default();
    assert_eq!(r.period_ms, 0);
    assert_eq!(r.obliquity_udeg, 0);
    assert_eq!(r.eq_ascending_node_udeg, 0);
}
