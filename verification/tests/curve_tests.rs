use pwm_fan::curve::calculate_fan_speed;
use pwm_fan::curve::IDLE_DUTY;
use pwm_fan::curve::MAX_DUTY;

#[test]
fn duty_at_or_below_cool_band_is_idle_floor() {
    assert_eq!(calculate_fan_speed(0), 77);
    assert_eq!(calculate_fan_speed(10), 77);
    assert_eq!(calculate_fan_speed(25), 77);
    assert_eq!(IDLE_DUTY, 77);
}

#[test]
fn duty_at_or_above_hot_band_is_maximum() {
    assert_eq!(calculate_fan_speed(60), 255);
    assert_eq!(calculate_fan_speed(100), 255);
    assert_eq!(calculate_fan_speed(150), 255);
    assert_eq!(calculate_fan_speed(u32::MAX), 255);
    assert_eq!(MAX_DUTY, 255);
}

#[test]
fn duty_staircase_exact_values() {
    assert_eq!(calculate_fan_speed(26), 82);
    assert_eq!(calculate_fan_speed(27), 87);
    assert_eq!(calculate_fan_speed(30), 102);
    assert_eq!(calculate_fan_speed(40), 152);
    assert_eq!(calculate_fan_speed(58), 242);
    assert_eq!(calculate_fan_speed(59), 247);
}

#[test]
fn duty_staircase_rises_by_five_per_degree() {
    for t in 26..=59u32 {
        assert_eq!(
            calculate_fan_speed(t),
            calculate_fan_speed(t - 1) + 5,
            "staircase step at {}",
            t
        );
    }
}

#[test]
fn duty_is_monotone() {
    for t in 1..=70u32 {
        assert!(calculate_fan_speed(t - 1) <= calculate_fan_speed(t));
    }
}
