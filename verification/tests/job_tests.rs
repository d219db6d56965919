use terrain_sweep::config::AnimationConfig;
use terrain_sweep::config::ConfigError;
use terrain_sweep::domain::AxisRange;
use terrain_sweep::domain::Domain;
use terrain_sweep::field::FieldError;
use terrain_sweep::field::HeightField;
use terrain_sweep::job::aggregate_outcomes;
use terrain_sweep::job::plan_composed_animation;
use terrain_sweep::job::plan_flat_animation;
use terrain_sweep::job::plan_stochastic_animation;
use terrain_sweep::job::AnimationJob;
use terrain_sweep::job::JobError;
use terrain_sweep::job::ParamFault;
use terrain_sweep::rng::JobRng;

fn reference_config(frame_count: u32) -> AnimationConfig {
    let domain = Domain::new(
        AxisRange::new(-10_000, 10_000),
        AxisRange::new(0, 6_000),
        AxisRange::new(-10_000, 10_000),
    );
    AnimationConfig::new(500, 500, 50, frame_count, 50_000, domain).unwrap()
}

#[test]
fn flat_job_renders_all_frames_at_baseline() {
    // A 157-frame job over the flat field at baseline 2.0 yields exactly
    // 157 frames, each an unvarying plane at y = 2.0 under its own pitch.
    let field = HeightField::Flat { baseline_milli: 2_000 };
    let config = reference_config(157);
    let anim = plan_flat_animation(&field, &config, 5).unwrap();
    assert_eq!(anim.frame_count(), 157);
    assert_eq!(anim.frame_delay(), 50);
    let base = 157.0f64 / 100.0;
    for (k, f) in anim.frames.iter().enumerate() {
        assert_eq!(f.frame_index as usize, k);
        assert_eq!(f.mesh.x_count, 101);
        assert_eq!(f.mesh.z_count, 101);
        assert_eq!(f.mesh.vertices.len(), 101 * 101);
        for v in f.mesh.vertices.iter() {
            assert_eq!(v.elevation_milli, 2_000);
        }
        let pitch = f.angle.num as f64 / f.angle.den as f64;
        let reference = base - (base - k as f64 / 50.0).abs();
        assert!((pitch - reference).abs() < 1e-9);
    }
}

#[test]
fn flat_planning_is_deterministic() {
    let field = HeightField::Flat { baseline_milli: 2_000 };
    let config = reference_config(12);
    let a = plan_flat_animation(&field, &config, 5).unwrap();
    let b = plan_flat_animation(&field, &config, 5).unwrap();
    assert_eq!(a, b);
}

#[test]
fn periodic_job_is_exact_at_the_origin() {
    // Periodic field, wavelength 1.0, amplitude divisor 4.0, baseline 2.0:
    // the elevation at (0, 0) is exactly 2.0.
    let field = HeightField::Periodic {
        baseline_milli: 2_000,
        wavelength_milli: 1_000,
        amplitude_divisor_milli: 4_000,
    };
    let config = reference_config(3);
    // Oscillator samples, row-major over the 101 x 101 grid, from the
    // scaled sine sum the reference formula uses.
    let mut oscs: Vec<i64> = Vec::new();
    for i in 0..101i64 {
        for j in 0..101i64 {
            let x = (-50 + i) as f64 / 5.0;
            let z = (-50 + j) as f64 / 5.0;
            let osc = ((x / 1.0).sin() + (z / 1.0).sin()) * 1000.0;
            oscs.push(osc as i64);
        }
    }
    let anim = plan_composed_animation(&field, &config, 5, &oscs).unwrap();
    assert_eq!(anim.frame_count(), 3);
    // The origin is row 50, column 50.
    let origin = 50 * 101 + 50;
    for f in anim.frames.iter() {
        let v = &f.mesh.vertices[origin];
        assert_eq!(v.x_num, 0);
        assert_eq!(v.z_num, 0);
        assert_eq!(v.elevation_milli, 2_000);
    }
}

#[test]
fn composed_planning_is_deterministic() {
    let field = HeightField::CoherentNoise {
        baseline_milli: 2_000,
        wavelength_milli: 1_000,
        amplitude_divisor_milli: 4_000,
        seed: 1,
    };
    let config = reference_config(2);
    let oscs: Vec<i64> = vec![0; 101 * 101];
    let a = plan_composed_animation(&field, &config, 5, &oscs).unwrap();
    let b = plan_composed_animation(&field, &config, 5, &oscs).unwrap();
    assert_eq!(a, b);
}

#[test]
fn stochastic_jobs_stay_isolated() {
    // Two stochastic jobs share no random source and no output: each owns
    // its generator, so neither can disturb the other's draws, whatever
    // order the two run in.
    let field = HeightField::StochasticFlat { baseline_milli: 2_000 };
    let config = reference_config(2);
    let mut rng_a = JobRng::from_seed(1);
    let mut rng_b = JobRng::from_seed(2);
    // Interleave the two jobs' planning; a third run of job A's plan with
    // a fresh generator under job A's seed reproduces job A exactly.
    let a = plan_stochastic_animation(&field, &config, 5, &mut rng_a).unwrap();
    let b = plan_stochastic_animation(&field, &config, 5, &mut rng_b).unwrap();
    let mut rng_a2 = JobRng::from_seed(1);
    let a2 = plan_stochastic_animation(&field, &config, 5, &mut rng_a2).unwrap();
    assert_eq!(a, a2);
    for anim in [&a, &b] {
        assert_eq!(anim.frame_count(), 2);
        for f in anim.frames.iter() {
            for v in f.mesh.vertices.iter() {
                assert!((2_000..3_000).contains(&v.elevation_milli));
            }
        }
    }
}

#[test]
fn single_frame_job_is_valid() {
    // frame_count = 1 produces a valid single-frame animation.
    let field = HeightField::Flat { baseline_milli: 2_000 };
    let config = reference_config(1);
    let anim = plan_flat_animation(&field, &config, 5).unwrap();
    assert_eq!(anim.frame_count(), 1);
    assert_eq!(anim.frames[0].angle.num, 0);
}

#[test]
fn invalid_field_fails_the_job_only() {
    let field = HeightField::Flat { baseline_milli: i64::MAX };
    let config = reference_config(3);
    let r = plan_flat_animation(&field, &config, 5);
    assert_eq!(
        r.unwrap_err(),
        JobError::InvalidParameter(ParamFault::Field(FieldError::BaselineOutOfBounds))
    );
}

#[test]
fn invalid_config_fails_the_job_only() {
    let field = HeightField::Flat { baseline_milli: 2_000 };
    let mut config = reference_config(3);
    config.frame_count = 0;
    let r = plan_flat_animation(&field, &config, 5);
    assert_eq!(
        r.unwrap_err(),
        JobError::InvalidParameter(ParamFault::Config(ConfigError::ZeroFrameCount))
    );
}

#[test]
fn zero_density_is_rejected() {
    let field = HeightField::Flat { baseline_milli: 2_000 };
    let config = reference_config(3);
    let r = plan_flat_animation(&field, &config, 0);
    assert_eq!(r.unwrap_err(), JobError::InvalidParameter(ParamFault::BadDensity));
}

#[test]
fn oscillator_count_mismatch_is_rejected() {
    let field = HeightField::Periodic {
        baseline_milli: 2_000,
        wavelength_milli: 1_000,
        amplitude_divisor_milli: 4_000,
    };
    let config = reference_config(3);
    let oscs: Vec<i64> = vec![0; 7];
    let r = plan_composed_animation(&field, &config, 5, &oscs);
    assert_eq!(r.unwrap_err(), JobError::InvalidParameter(ParamFault::OscillatorCountMismatch));
}

#[test]
fn oscillator_out_of_range_is_rejected() {
    let field = HeightField::Periodic {
        baseline_milli: 2_000,
        wavelength_milli: 1_000,
        amplitude_divisor_milli: 4_000,
    };
    let config = reference_config(3);
    let mut oscs: Vec<i64> = vec![0; 101 * 101];
    oscs[17] = i64::MAX;
    let r = plan_composed_animation(&field, &config, 5, &oscs);
    assert_eq!(r.unwrap_err(), JobError::InvalidParameter(ParamFault::OscillatorOutOfRange));
}

#[test]
fn job_validation_checks_field_then_config() {
    let job = AnimationJob {
        field: HeightField::Flat { baseline_milli: 2_000 },
        config: reference_config(3),
        output_path: String::from("out/flat.gif"),
    };
    assert!(job.validate().is_ok());
    let bad = AnimationJob {
        field: HeightField::Periodic {
            baseline_milli: 2_000,
            wavelength_milli: 0,
            amplitude_divisor_milli: 4_000,
        },
        config: reference_config(3),
        output_path: String::from("out/sine.gif"),
    };
    assert_eq!(
        bad.validate().unwrap_err(),
        JobError::InvalidParameter(ParamFault::Field(FieldError::NonPositiveWavelength))
    );
}

#[test]
fn aggregation_attributes_each_failure_to_its_job() {
    let outcomes: Vec<Result<(), JobError>> = vec![
        Ok(()),
        Err(JobError::IoFailure),
        Ok(()),
        Err(JobError::RenderingFailure),
    ];
    let report = aggregate_outcomes(&outcomes);
    assert_eq!(report.total, 4);
    assert_eq!(report.failures.len(), 2);
    assert_eq!(report.failures[0], (1, JobError::IoFailure));
    assert_eq!(report.failures[1], (3, JobError::RenderingFailure));
}

#[test]
fn aggregation_of_all_successes_is_empty() {
    let outcomes: Vec<Result<(), JobError>> = vec![Ok(()), Ok(()), Ok(())];
    let report = aggregate_outcomes(&outcomes);
    assert_eq!(report.total, 3);
    assert!(report.failures.is_empty());
}
