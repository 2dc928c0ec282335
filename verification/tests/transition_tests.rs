use nebula::chemistry::molecules::Molecule;
use nebula::gas::Composition;
use nebula::transition::{interpolate_value, Easing, InterpolationAsyncOptions, Progress};

#[test]
fn test_f64_interpolation() {
    let v1 = interpolate_value(
        1,
        100,
        Progress::zero(),
        None,
        Some(InterpolationAsyncOptions(Progress::from_percent(50))),
    );
    println!("v1 {}", v1);
    let v1 = interpolate_value(
        1,
        100,
        Progress::new(300_000),
        None,
        Some(InterpolationAsyncOptions(Progress::from_percent(50))),
    );
    println!("v1 {}", v1);
    let v1 = interpolate_value(
        1,
        100,
        Progress::new(500_000),
        None,
        Some(InterpolationAsyncOptions(Progress::from_percent(50))),
    );
    println!("v1 {}", v1);
    let v1 = interpolate_value(
        1,
        100,
        Progress::new(600_000),
        None,
        Some(InterpolationAsyncOptions(Progress::from_percent(50))),
    );
    println!("v1 {}", v1);
    let v1 = interpolate_value(
        1,
        100,
        Progress::new(700_000),
        None,
        Some(InterpolationAsyncOptions(Progress::from_percent(50))),
    );
    println!("v1 {}", v1);
    let v1 = interpolate_value(
        1,
        100,
        Progress::new(800_000),
        None,
        Some(InterpolationAsyncOptions(Progress::from_percent(50))),
    );
    println!("v1 {}", v1);
    let v1 = interpolate_value(
        1,
        100,
        Progress::new(900_000),
        None,
        Some(InterpolationAsyncOptions(Progress::from_percent(50))),
    );
    println!("v1 {}", v1);
    let v1 = interpolate_value(
        1,
        100,
        Progress::one(),
        None,
        Some(InterpolationAsyncOptions(Progress::from_percent(50))),
    );
    println!("v1 {}", v1);
}

#[test]
fn transition_composition_with_parity_test() {
    let c1 = Composition(vec![
        (Molecule::molecular_hydrogen(), 80),
        (Molecule::atomic_helium(), 20),
    ]);
    let c2 = Composition(vec![
        (Molecule::molecular_hydrogen(), 20),
        (Molecule::atomic_helium(), 80),
    ]);

    let start = c1.interpolate(&c2, Progress::zero(), None);
    assert!(start.0.contains(&(Molecule::molecular_hydrogen(), 80)));
    assert!(start.0.contains(&(Molecule::atomic_helium(), 20)));

    let mid = c1.interpolate(&c2, Progress::from_percent(50), None);
    assert!(mid.0.contains(&(Molecule::molecular_hydrogen(), 50)));
    assert!(mid.0.contains(&(Molecule::atomic_helium(), 50)));

    let end = c1.interpolate(&c2, Progress::one(), None);
    assert!(end.0.contains(&(Molecule::molecular_hydrogen(), 20)));
    assert!(end.0.contains(&(Molecule::atomic_helium(), 80)));
}

#[test]
fn transition_composition_with_right_imbalance_test() {
    let c1 = Composition(vec![(Molecule::molecular_hydrogen(), 100)]);
    let c2 = Composition(vec![
        (Molecule::molecular_hydrogen(), 50),
        (Molecule::atomic_helium(), 50),
    ]);

    let start = c1.interpolate(&c2, Progress::zero(), None);
    assert!(start.0.contains(&(Molecule::molecular_hydrogen(), 100)));
    assert!(start.0.contains(&(Molecule::atomic_helium(), 0)));

    let end = c1.interpolate(&c2, Progress::one(), None);
    assert!(end.0.contains(&(Molecule::molecular_hydrogen(), 50)));
    assert!(end.0.contains(&(Molecule::atomic_helium(), 50)));

    let mid = c1.interpolate(&c2, Progress::from_percent(50), None);
    assert!(mid.0.contains(&(Molecule::molecular_hydrogen(), 75)));
    assert!(mid.0.contains(&(Molecule::atomic_helium(), 25)));
}

#[test]
fn transition_composition_with_left_imbalance_test() {
    let c1 = Composition(vec![
        (Molecule::molecular_hydrogen(), 50),
        (Molecule::atomic_helium(), 50),
    ]);
    let c2 = Composition(vec![(Molecule::molecular_hydrogen(), 100)]);

    let start = c1.interpolate(&c2, Progress::zero(), None);
    assert!(start.0.contains(&(Molecule::molecular_hydrogen(), 50)));
    assert!(start.0.contains(&(Molecule::atomic_helium(), 50)));

    let end = c1.interpolate(&c2, Progress::one(), None);
    assert!(end.0.contains(&(Molecule::molecular_hydrogen(), 100)));
    assert!(end.0.contains(&(Molecule::atomic_helium(), 0)));

    let mid = c1.interpolate(&c2, Progress::from_percent(50), None);
    assert!(mid.0.contains(&(Molecule::molecular_hydrogen(), 75)));
    assert!(mid.0.contains(&(Molecule::atomic_helium(), 25)));
}

#[test]
fn interpolate_composition() {}

#[test]
fn async_offset_holds_origin_until_threshold() {
    let offset = Some(InterpolationAsyncOptions(Progress::from_percent(50)));
    assert_eq!(interpolate_value(1, 100, Progress::new(300_000), None, offset), 1);
    assert_eq!(interpolate_value(1, 100, Progress::new(499_999), None, offset), 1);
    assert_eq!(interpolate_value(1, 100, Progress::one(), None, offset), 100);
}

#[test]
fn lerp_endpoints_are_exact() {
    assert_eq!(interpolate_value(-37, 4123, Progress::zero(), None, None), -37);
    assert_eq!(interpolate_value(-37, 4123, Progress::one(), None, None), 4123);
    assert_eq!(
        interpolate_value(-37, 4123, Progress::zero(), Some(Easing::CubicIn), None),
        -37
    );
    assert_eq!(
        interpolate_value(-37, 4123, Progress::one(), Some(Easing::CubicIn), None),
        4123
    );
    assert_eq!(
        interpolate_value(-37, 4123, Progress::zero(), Some(Easing::QuarticIn), None),
        -37
    );
    assert_eq!(
        interpolate_value(-37, 4123, Progress::one(), Some(Easing::QuarticIn), None),
        4123
    );
}

#[test]
fn lerp_on_equal_endpoints_is_constant() {
    for millionths in [0u32, 1, 250_000, 500_000, 999_999, 1_000_000] {
        assert_eq!(
            interpolate_value(42, 42, Progress::new(millionths), None, None),
            42
        );
        assert_eq!(
            interpolate_value(-9, -9, Progress::new(millionths), Some(Easing::CubicIn), None),
            -9
        );
    }
}

#[test]
fn linear_interpolation_is_monotonic() {
    let mut previous = i64::MIN;
    for millionths in [0u32, 1, 137, 250_000, 500_000, 750_000, 999_999, 1_000_000] {
        let value = interpolate_value(-50, 1_000_000, Progress::new(millionths), None, None);
        assert!(value >= previous);
        previous = value;
    }
}

#[test]
fn easing_curves_bend_the_blend() {
    // Halfway with a cubic curve: an eighth of the way in value.
    assert_eq!(
        interpolate_value(0, 800, Progress::from_percent(50), Some(Easing::CubicIn), None),
        100
    );
    // Halfway with a quartic curve: a sixteenth of the way in value.
    assert_eq!(
        interpolate_value(0, 800, Progress::from_percent(50), Some(Easing::QuarticIn), None),
        50
    );
}

#[test]
fn progress_constructors_agree() {
    assert_eq!(Progress::zero(), Progress::from_percent(0));
    assert_eq!(Progress::one(), Progress::from_percent(100));
    assert_eq!(Progress::new(500_000), Progress::from_percent(50));
}
