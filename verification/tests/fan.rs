use cc_plugin_aorus::fan::{duty_to_driver_value, FanMode};

#[test]
fn fan_mode_codes() {
    assert_eq!(FanMode::Normal.code(), 0);
    assert_eq!(FanMode::Fixed.code(), 5);
}

#[test]
fn driver_values_round_to_nearest() {
    assert_eq!(duty_to_driver_value(10), 23);
    assert_eq!(duty_to_driver_value(33), 75);
    assert_eq!(duty_to_driver_value(50), 114);
    assert_eq!(duty_to_driver_value(90), 204);
    assert_eq!(duty_to_driver_value(100), 227);
}

#[test]
fn driver_values_match_float_rounding() {
    for duty in 10..=100 {
        let expected = ((duty as f64 * 227.0) / 100.0).round() as i32;
        assert_eq!(duty_to_driver_value(duty), expected, "duty {duty}");
    }
}

#[test]
fn driver_values_grow_with_duty() {
    let mut last = 0;
    for duty in 10..=100 {
        let value = duty_to_driver_value(duty);
        assert!(value >= last && (23..=227).contains(&value));
        last = value;
    }
}
