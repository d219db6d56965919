use terrain_sweep::config::AnimationConfig;
use terrain_sweep::config::ConfigError;
use terrain_sweep::domain::AxisRange;
use terrain_sweep::domain::Domain;

fn reference_domain() -> Domain {
    Domain::new(
        AxisRange::new(-10_000, 10_000),
        AxisRange::new(0, 6_000),
        AxisRange::new(-10_000, 10_000),
    )
}

#[test]
fn valid_config_is_accepted() {
    let c = AnimationConfig::new(500, 500, 50, 157, 50_000, reference_domain()).unwrap();
    assert_eq!(c.width, 500);
    assert_eq!(c.height, 500);
    assert_eq!(c.frame_delay, 50);
    assert_eq!(c.frame_count, 157);
    assert_eq!(c.pitch_divisor_milli, 50_000);
}

#[test]
fn zero_width_is_rejected() {
    let r = AnimationConfig::new(0, 500, 50, 157, 50_000, reference_domain());
    assert_eq!(r, Err(ConfigError::ZeroWidth));
}

#[test]
fn zero_height_is_rejected() {
    let r = AnimationConfig::new(500, 0, 50, 157, 50_000, reference_domain());
    assert_eq!(r, Err(ConfigError::ZeroHeight));
}

#[test]
fn zero_delay_is_rejected() {
    let r = AnimationConfig::new(500, 500, 0, 157, 50_000, reference_domain());
    assert_eq!(r, Err(ConfigError::ZeroFrameDelay));
}

#[test]
fn zero_frame_count_is_rejected() {
    let r = AnimationConfig::new(500, 500, 50, 0, 50_000, reference_domain());
    assert_eq!(r, Err(ConfigError::ZeroFrameCount));
}

#[test]
fn zero_pitch_divisor_is_rejected() {
    let r = AnimationConfig::new(500, 500, 50, 157, 0, reference_domain());
    assert_eq!(r, Err(ConfigError::ZeroPitchDivisor));
}

#[test]
fn inverted_x_range_is_rejected() {
    let d = Domain::new(
        AxisRange::new(10_000, -10_000),
        AxisRange::new(0, 6_000),
        AxisRange::new(-10_000, 10_000),
    );
    let r = AnimationConfig::new(500, 500, 50, 157, 50_000, d);
    assert_eq!(r, Err(ConfigError::BadXRange));
}

#[test]
fn empty_y_range_is_rejected() {
    let d = Domain::new(
        AxisRange::new(-10_000, 10_000),
        AxisRange::new(2_000, 2_000),
        AxisRange::new(-10_000, 10_000),
    );
    let r = AnimationConfig::new(500, 500, 50, 157, 50_000, d);
    assert_eq!(r, Err(ConfigError::BadYRange));
}

#[test]
fn inverted_z_range_is_rejected() {
    let d = Domain::new(
        AxisRange::new(-10_000, 10_000),
        AxisRange::new(0, 6_000),
        AxisRange::new(5_000, 4_000),
    );
    let r = AnimationConfig::new(500, 500, 50, 157, 50_000, d);
    assert_eq!(r, Err(ConfigError::BadZRange));
}
