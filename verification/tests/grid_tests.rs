use terrain_sweep::domain::AxisRange;
use terrain_sweep::grid::SamplingGrid;

#[test]
fn count_for_reference_domain() {
    // [-10, 10) at density 5: floor((10 - -10) * 5) + 1 = 101 samples.
    let r = AxisRange::new(-10_000, 10_000);
    let g = SamplingGrid::new(r, 5);
    assert_eq!(g.len(), 101);
    // First sample is the range start: numerator -50 is -10.0 at density 5.
    assert_eq!(g.sample_num(0), -50);
    assert_eq!(g.sample_num(100), 50);
}

#[test]
fn consecutive_samples_differ_by_one_step() {
    let r = AxisRange::new(-10_000, 10_000);
    let g = SamplingGrid::new(r, 5);
    for k in 1..g.len() {
        // One numerator step is exactly 1/density.
        assert_eq!(g.sample_num(k) - g.sample_num(k - 1), 1);
    }
}

#[test]
fn bounds_truncate_toward_zero() {
    // [-1.95, 2.75) at density 5: scaled bounds -9.75 and 13.75 truncate
    // to -9 and 13, as the reference's integer casts truncate.
    let r = AxisRange::new(-1_950, 2_750);
    let g = SamplingGrid::new(r, 5);
    assert_eq!(g.sample_num(0), -9);
    assert_eq!(g.sample_num(g.len() - 1), 13);
    assert_eq!(g.len(), 23);
}

#[test]
fn unit_density_grid() {
    let r = AxisRange::new(0, 6_000);
    let g = SamplingGrid::new(r, 1);
    assert_eq!(g.len(), 7);
    assert_eq!(g.sample_num(0), 0);
    assert_eq!(g.sample_num(6), 6);
}
