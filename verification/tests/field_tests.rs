use noise::NoiseFn;
use terrain_sweep::field::FieldError;
use terrain_sweep::field::HeightField;
use terrain_sweep::rng::JobRng;

#[test]
fn flat_field_is_deterministic() {
    // Determinism law: repeated evaluation is bit-identical.
    let f = HeightField::Flat { baseline_milli: 2_000 };
    assert_eq!(f.flat_elevation(), 2_000);
    assert_eq!(f.flat_elevation(), f.flat_elevation());
    assert!(f.is_deterministic());
}

#[test]
fn composition_is_deterministic() {
    let f = HeightField::Periodic {
        baseline_milli: 2_000,
        wavelength_milli: 1_000,
        amplitude_divisor_milli: 4_000,
    };
    assert!(f.is_deterministic());
    for osc in [-2_000i64, -1, 0, 1, 777, 2_000] {
        assert_eq!(f.compose(osc), f.compose(osc));
    }
}

#[test]
fn zero_oscillator_returns_baseline_exactly() {
    // sin(0) + sin(0) = 0, so the elevation at the origin is the baseline.
    let f = HeightField::Periodic {
        baseline_milli: 2_000,
        wavelength_milli: 1_000,
        amplitude_divisor_milli: 4_000,
    };
    let osc_at_origin = (((0.0f64).sin() + (0.0f64).sin()) * 1000.0) as i64;
    assert_eq!(osc_at_origin, 0);
    assert_eq!(f.compose(osc_at_origin), 2_000);
}

#[test]
fn composition_dampens_by_amplitude_divisor() {
    // A full oscillator swing of 2.0 dampened by 4.0 adds exactly 0.5.
    let f = HeightField::Periodic {
        baseline_milli: 2_000,
        wavelength_milli: 1_000,
        amplitude_divisor_milli: 4_000,
    };
    assert_eq!(f.compose(2_000), 2_500);
    assert_eq!(f.compose(-2_000), 1_500);
    // Truncation toward zero, as the reference arithmetic truncates.
    assert_eq!(f.compose(1), 2_000);
    assert_eq!(f.compose(-1), 2_000);
}

#[test]
fn stochastic_elevation_stays_in_unit_band() {
    let f = HeightField::StochasticFlat { baseline_milli: 2_000 };
    assert!(!f.is_deterministic());
    let mut rng = JobRng::from_seed(7);
    for _ in 0..1000 {
        let y = f.stochastic_elevation(&mut rng);
        assert!((2_000..3_000).contains(&y));
    }
}

#[test]
fn seeded_draws_are_reproducible() {
    // An injected seed makes a job's random draws reproducible.
    let mut a = JobRng::from_seed(42);
    let mut b = JobRng::from_seed(42);
    for _ in 0..100 {
        assert_eq!(a.next_unit_milli(), b.next_unit_milli());
    }
}

#[test]
fn zero_wavelength_is_rejected() {
    let f = HeightField::Periodic {
        baseline_milli: 2_000,
        wavelength_milli: 0,
        amplitude_divisor_milli: 4_000,
    };
    assert_eq!(f.validate(), Err(FieldError::NonPositiveWavelength));
}

#[test]
fn zero_amplitude_divisor_is_rejected() {
    let f = HeightField::CoherentNoise {
        baseline_milli: 2_000,
        wavelength_milli: 1_000,
        amplitude_divisor_milli: 0,
        seed: 1,
    };
    assert_eq!(f.validate(), Err(FieldError::NonPositiveAmplitudeDivisor));
}

#[test]
fn out_of_bounds_baseline_is_rejected() {
    let f = HeightField::Flat { baseline_milli: 2_000_000_000 };
    assert_eq!(f.validate(), Err(FieldError::BaselineOutOfBounds));
}

#[test]
fn perlin_noise_is_deterministic_for_fixed_seed() {
    // Determinism law for the coherent-noise oscillator itself.
    let a = noise::Perlin::new(1);
    let b = noise::Perlin::new(1);
    for p in [[0.0, 0.0], [0.3, -1.7], [10.25, 4.5], [-3.99, 2.01]] {
        assert_eq!(a.get(p).to_bits(), b.get(p).to_bits());
        assert_eq!(a.get(p).to_bits(), a.get(p).to_bits());
    }
}

#[test]
fn perlin_noise_is_continuous_across_integer_boundaries() {
    // Small input perturbations give bounded, small output changes,
    // also across integer sample boundaries.
    let n = noise::Perlin::new(1);
    let eps = 1e-4;
    let mut t = -3.0f64;
    while t < 3.0 {
        let here = n.get([t, 0.5]);
        let near = n.get([t + eps, 0.5]);
        assert!((here - near).abs() < 1e-2);
        let here_z = n.get([0.25, t]);
        let near_z = n.get([0.25, t + eps]);
        assert!((here_z - near_z).abs() < 1e-2);
        // Step right across the integer boundary.
        t += 0.25;
    }
    for b in [-2.0f64, -1.0, 0.0, 1.0, 2.0] {
        let below = n.get([b - eps, 0.5]);
        let above = n.get([b + eps, 0.5]);
        assert!((below - above).abs() < 1e-2);
    }
}
