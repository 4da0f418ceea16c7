use playback::volume::applied_amplitude;
use playback::volume::FULL_AMPLITUDE;
use playback::volume::FULL_VOLUME_PERMILLE;

#[test]
fn curve_is_the_cube_of_the_control_value() {
    // amplitude / 10^9 == (volume / 10^3)^3
    assert_eq!(applied_amplitude(1_000), 1_000_000_000);
    assert_eq!(applied_amplitude(500), 125_000_000);
    assert_eq!(applied_amplitude(100), 1_000_000);
    assert_eq!(applied_amplitude(999), 997_002_999);
    assert_eq!(applied_amplitude(1), 1);
}

#[test]
fn control_values_outside_the_unit_range_are_clamped() {
    assert_eq!(applied_amplitude(0), 0);
    assert_eq!(applied_amplitude(-500), 0);
    assert_eq!(applied_amplitude(i64::MIN), 0);
    assert_eq!(applied_amplitude(2_000), FULL_AMPLITUDE);
    assert_eq!(applied_amplitude(i64::MAX), FULL_AMPLITUDE);
    assert_eq!(applied_amplitude(FULL_VOLUME_PERMILLE), FULL_AMPLITUDE);
}
