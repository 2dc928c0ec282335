use nebula::chemistry::molecules::Molecule;
use nebula::gas::{Composition, UniformGas, UniformGasAsynchronousOptions};
use nebula::transition::{Easing, InterpolationAsyncOptions, Progress};

fn sample_gas(temperature: i64, volume: i64) -> UniformGas {
    UniformGas {
        volume,
        pressure: 2_500,
        moles: 84,
        temperature,
        materials: Composition(vec![(Molecule::molecular_hydrogen(), 100)]),
        mass: 1_000_000,
        density: 30,
    }
}

#[test]
fn gas_interpolates_to_itself() {
    let origin = sample_gas(100, 300);
    let target = sample_gas(100, 300);

    let interpolated = origin.interpolate(&target, Progress::new(10_000), None, None);
    assert_eq!(interpolated.temperature, 100);
    assert_eq!(interpolated.volume, 300);

    let interpolated = origin.interpolate(&target, Progress::from_percent(50), None, None);
    assert_eq!(interpolated.temperature, 100);
    assert_eq!(interpolated.volume, 300);
    assert_eq!(interpolated.pressure, 2_500);
    assert_eq!(interpolated.moles, 84);
    assert_eq!(interpolated.mass, 1_000_000);
    assert_eq!(interpolated.density, 30);
}

#[test]
fn gas_interpolates_between_states() {
    let origin = sample_gas(7, 1_000);
    let target = sample_gas(700, 30);

    let interpolated = origin.interpolate(&target, Progress::zero(), None, None);
    assert_eq!(interpolated.temperature, origin.temperature);
    assert_eq!(interpolated.volume, origin.volume);

    let interpolated = origin.interpolate(&target, Progress::from_percent(50), None, None);
    assert_eq!(interpolated.temperature, 353);
    assert_eq!(interpolated.volume, 515);

    let interpolated = origin.interpolate(&target, Progress::one(), None, None);
    assert_eq!(interpolated.temperature, target.temperature);
    assert_eq!(interpolated.volume, target.volume);
}

#[test]
fn gas_interpolation_with_ease() {
    let origin = sample_gas(7, 1_000);
    let target = sample_gas(700, 30);

    let interpolated = origin.interpolate(
        &target,
        Progress::from_percent(50),
        Some(Easing::QuarticIn),
        None,
    );
    // A quarter to the fourth: one sixteenth of the way.
    assert_eq!(interpolated.temperature, 7 + 693 * 62_500 / 1_000_000);

    let interpolated = origin.interpolate(&target, Progress::one(), Some(Easing::QuarticIn), None);
    assert_eq!(interpolated.temperature, 700);
}

#[test]
fn gas_temperature_async_offset() {
    let origin = sample_gas(1, 500);
    let target = sample_gas(100, 900);
    let options = UniformGasAsynchronousOptions {
        temperature_offset: Some(InterpolationAsyncOptions(Progress::from_percent(50))),
    };

    // Below the threshold the temperature holds its origin value while the
    // other fields move.
    let interpolated = origin.interpolate(&target, Progress::new(300_000), None, Some(options));
    assert_eq!(interpolated.temperature, 1);
    assert_eq!(interpolated.volume, 620);

    // At full progress the temperature arrives with everything else.
    let interpolated = origin.interpolate(&target, Progress::one(), None, Some(options));
    assert_eq!(interpolated.temperature, 100);
    assert_eq!(interpolated.volume, 900);
}

#[test]
fn gas_interpolation_merges_material_sets() {
    let origin = UniformGas {
        materials: Composition(vec![(Molecule::molecular_hydrogen(), 100)]),
        ..sample_gas(10, 10)
    };
    let target = UniformGas {
        materials: Composition(vec![
            (Molecule::molecular_hydrogen(), 50),
            (Molecule::atomic_helium(), 50),
        ]),
        ..sample_gas(10, 10)
    };

    let interpolated = origin.interpolate(&target, Progress::from_percent(50), None, None);
    assert!(interpolated.materials.0.contains(&(Molecule::molecular_hydrogen(), 75)));
    assert!(interpolated.materials.0.contains(&(Molecule::atomic_helium(), 25)));
    assert_eq!(interpolated.materials.0.len(), 2);
}

#[test]
fn composition_duplicate_entries_aggregate() {
    let doubled = Composition(vec![
        (Molecule::molecular_hydrogen(), 30),
        (Molecule::molecular_hydrogen(), 20),
    ]);
    let merged = Composition(vec![(Molecule::molecular_hydrogen(), 50)]);
    let target = Composition(vec![(Molecule::atomic_helium(), 10)]);

    let from_doubled = doubled.interpolate(&target, Progress::from_percent(50), None);
    let from_merged = merged.interpolate(&target, Progress::from_percent(50), None);

    assert!(from_doubled.0.contains(&(Molecule::molecular_hydrogen(), 25)));
    assert!(from_doubled.0.contains(&(Molecule::atomic_helium(), 5)));
    assert!(from_merged.0.contains(&(Molecule::molecular_hydrogen(), 25)));
    assert!(from_merged.0.contains(&(Molecule::atomic_helium(), 5)));
    assert_eq!(from_doubled.0.len(), 2);
    assert_eq!(from_merged.0.len(), 2);
}

#[test]
fn reconcile_produces_the_key_union() {
    let c1 = Composition(vec![
        (Molecule::molecular_hydrogen(), 80),
        (Molecule::atomic_helium(), 20),
    ]);
    let c2 = Composition(vec![
        (Molecule::atomic_helium(), 60),
        (Molecule::carbon_monoxide(), 40),
    ]);

    let (origin, target) = c1.reconcile(&c2);
    assert_eq!(origin.len(), 3);
    assert_eq!(target.len(), 3);
    assert!(origin.contains(&(Molecule::molecular_hydrogen(), 80)));
    assert!(origin.contains(&(Molecule::atomic_helium(), 20)));
    assert!(origin.contains(&(Molecule::carbon_monoxide(), 0)));
    assert!(target.contains(&(Molecule::molecular_hydrogen(), 0)));
    assert!(target.contains(&(Molecule::atomic_helium(), 60)));
    assert!(target.contains(&(Molecule::carbon_monoxide(), 40)));
}

#[test]
fn empty_composition_counts_as_all_zero() {
    let empty = Composition(vec![]);
    let filled = Composition(vec![(Molecule::water(), 40)]);

    let end = empty.interpolate(&filled, Progress::one(), None);
    assert!(end.0.contains(&(Molecule::water(), 40)));

    let start = empty.interpolate(&filled, Progress::zero(), None);
    assert!(start.0.contains(&(Molecule::water(), 0)));
    assert_eq!(start.0.len(), 1);
}
