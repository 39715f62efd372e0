use swerve_control::controller::PidFlags;

#[test]
fn fresh_controller_is_not_at_setpoint() {
    let flags = PidFlags::new();
    assert!(!flags.at_setpoint(true, true));
}

#[test]
fn setpoint_alone_is_not_enough() {
    let mut flags = PidFlags::new();
    flags.record_setpoint();
    assert!(!flags.at_setpoint(true, true));
}

#[test]
fn measurement_alone_is_not_enough() {
    let mut flags = PidFlags::new();
    flags.record_measurement();
    assert!(!flags.at_setpoint(true, true));
}

#[test]
fn at_setpoint_after_both_inputs_and_tolerances() {
    let mut flags = PidFlags::new();
    flags.record_setpoint();
    flags.record_measurement();
    assert!(flags.at_setpoint(true, true));
    assert!(!flags.at_setpoint(false, true));
    assert!(!flags.at_setpoint(true, false));
}

#[test]
fn reset_forces_not_at_setpoint_until_next_measurement() {
    let mut flags = PidFlags::new();
    flags.record_setpoint();
    flags.record_measurement();
    assert!(flags.at_setpoint(true, true));
    flags.reset();
    assert!(!flags.at_setpoint(true, true));
    // The setpoint survives the reset: one new measurement suffices.
    flags.record_measurement();
    assert!(flags.at_setpoint(true, true));
}

#[test]
fn continuous_input_toggle() {
    let mut flags = PidFlags::new();
    assert!(!flags.is_continuous_input_enabled());
    flags.enable_continuous_input();
    assert!(flags.is_continuous_input_enabled());
    flags.disable_continuous_input();
    assert!(!flags.is_continuous_input_enabled());
}

#[test]
fn reset_keeps_continuous_mode() {
    let mut flags = PidFlags::new();
    flags.enable_continuous_input();
    flags.reset();
    assert!(flags.is_continuous_input_enabled());
}
