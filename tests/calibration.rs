use ruka::calibration::{
    observe_all, observe_bounds, observe_channel, CalibrationError, BASELINE_MIN, NOISE_FLOOR,
};

#[test]
fn lower_sample_widens_min() {
    assert_eq!(observe_bounds((200, 800), 50), (50, 800));
}

#[test]
fn higher_sample_widens_max() {
    assert_eq!(observe_bounds((200, 800), 900), (200, 900));
}

#[test]
fn sample_inside_bounds_changes_nothing() {
    assert_eq!(observe_bounds((200, 800), 500), (200, 800));
}

#[test]
fn noisy_min_is_reset_before_comparison() {
    // 20000 is above the baseline: the min becomes the baseline itself.
    assert_eq!(observe_bounds((50, 800), 20000), (14000, 20000));
    // 500 is below the baseline: it becomes the new min.
    assert_eq!(observe_bounds((50, 800), 500), (500, 800));
    assert_eq!(NOISE_FLOOR, 100);
    assert_eq!(BASELINE_MIN, 14000);
}

#[test]
fn min_at_noise_floor_is_kept() {
    assert_eq!(observe_bounds((100, 800), 5000), (100, 5000));
    assert_eq!(observe_bounds((99, 800), 5000), (5000, 5000));
}

#[test]
fn first_sample_from_zero_bounds() {
    assert_eq!(observe_bounds((0, 0), 3000), (3000, 3000));
    assert_eq!(observe_bounds((0, 0), 50), (50, 50));
}

#[test]
fn channel_out_of_range_is_refused() {
    let mut limits = [(200u16, 800u16); 5];
    assert_eq!(observe_channel(&mut limits, 5, 10), Err(CalibrationError::InvalidChannel));
    assert_eq!(limits, [(200, 800); 5]);
    assert_eq!(observe_channel(&mut limits, 2, 10), Ok((10, 800)));
    assert_eq!(limits[2], (10, 800));
    assert_eq!(limits[1], (200, 800));
}

#[test]
fn all_channels_observed_independently() {
    let mut limits = [(200, 800), (50, 800), (0, 0), (1000, 2000), (300, 300)];
    observe_all(&mut limits, &[100, 900, 700, 1500, 300]);
    assert_eq!(limits, [(100, 800), (900, 900), (700, 700), (1000, 2000), (300, 300)]);
}
