//! Unit conversions, configuration lookups, messages, and the work
//! envelope.

use rust_grind::common::{Axis, AxisEnd, EndstopIdentifier};
use rust_grind::config::{MotorConfig, RustGrindConfig};
use rust_grind::messages::CurrentPositionMsg;
use rust_grind::operation_controllers::work_envelope::WorkEnvelope;
use rust_grind::operation_controllers::SurfaceGrinderCutParams;
use rust_grind::units::round_div_i128;

fn motor_config(steps_per_rev: u32, revs_per_inch_milli: u32) -> MotorConfig {
    MotorConfig {
        steps_per_rev,
        revs_per_inch_milli,
        reversed: false,
        default_speed_uin_s: 1_000_000,
        enable_pin_number: 17,
        step_pin_number: 18,
        direction_pin_number: 19,
    }
}

#[test]
fn round_div_rounds_to_nearest_half_up() {
    assert_eq!(round_div_i128(5, 2), 3);
    assert_eq!(round_div_i128(-5, 2), -2);
    assert_eq!(round_div_i128(7, 3), 2);
    assert_eq!(round_div_i128(-7, 3), -2);
    assert_eq!(round_div_i128(6, 3), 2);
    assert_eq!(round_div_i128(-6, 3), -2);
    assert_eq!(round_div_i128(0, 9), 0);
}

#[test]
fn inches_to_steps_exact_values() {
    // 200 steps per revolution at one revolution per inch: 200 steps/inch.
    let cfg = motor_config(200, 1000);
    assert_eq!(cfg.inches_to_steps(1_000_000), 200);
    assert_eq!(cfg.inches_to_steps(-1_000_000), -200);
    assert_eq!(cfg.inches_to_steps(0), 0);
    // Half a step (2500 microinches) rounds up.
    assert_eq!(cfg.inches_to_steps(1_002_500), 201);
    assert_eq!(cfg.inches_to_steps(1_002_499), 200);
}

#[test]
fn steps_to_inches_exact_values() {
    let cfg = motor_config(200, 1000);
    assert_eq!(cfg.steps_to_inches(200), 1_000_000);
    assert_eq!(cfg.steps_to_inches(-200), -1_000_000);
    assert_eq!(cfg.steps_to_inches(1), 5_000);
}

#[test]
fn inches_round_trip_within_one_step_width() {
    // One step is 5000 microinches here.
    let cfg = motor_config(200, 1000);
    for &x in &[0i64, 1, 4_999, 123_456, -123_456, 1_002_499, -1_002_499, 256_000_000] {
        let back = cfg.steps_to_inches(cfg.inches_to_steps(x));
        assert!((back - x).abs() <= 5_000, "{} -> {}", x, back);
    }
}

#[test]
fn steps_round_trip_is_exact() {
    let cfg = motor_config(200, 1000);
    for &s in &[0i64, 1, -1, 25, -25, 1_000_000] {
        assert_eq!(cfg.inches_to_steps(cfg.steps_to_inches(s)), s);
    }
}

#[test]
fn speed_to_step_rate() {
    // 200 steps/inch at one inch per second: 200 steps per second.
    let cfg = motor_config(200, 1000);
    assert_eq!(cfg.steps_per_millisecond_milli(1_000_000), 200);
    assert_eq!(cfg.steps_per_millisecond_milli(0), 0);
    assert_eq!(cfg.steps_per_millisecond_milli(2_500_000), 500);
}

#[test]
fn direction_pin_honours_reversed_flag() {
    let mut cfg = motor_config(200, 1000);
    assert!(cfg.direction_pin_level(AxisEnd::Max));
    assert!(!cfg.direction_pin_level(AxisEnd::Min));
    cfg.reversed = true;
    assert!(!cfg.direction_pin_level(AxisEnd::Max));
    assert!(cfg.direction_pin_level(AxisEnd::Min));
}

#[test]
fn default_config_is_complete() {
    let c = RustGrindConfig::default_config();
    assert_eq!(c.motor_configs.get(Axis::X).steps_per_rev, 200);
    assert_eq!(c.motor_configs.get(Axis::Y).enable_pin_number, 24);
    assert_eq!(c.motor_configs.get(Axis::Z).step_pin_number, 12);
    assert_eq!(c.spindle_enable_pin, 6);
    assert_eq!(c.gpio_chip_name, "/dev/gpiochip0");
}

#[test]
fn endstop_pin_lookup() {
    let c = RustGrindConfig::default_config();
    let pin = |axis, position| c.endstop_config.pin_for(EndstopIdentifier { axis, position });
    assert_eq!(pin(Axis::X, AxisEnd::Min), Some(20));
    assert_eq!(pin(Axis::X, AxisEnd::Max), Some(21));
    assert_eq!(pin(Axis::Y, AxisEnd::Min), Some(13));
    assert_eq!(pin(Axis::Y, AxisEnd::Max), Some(27));
    assert_eq!(pin(Axis::Z, AxisEnd::Max), Some(26));
    // Z has no Min switch on this machine.
    assert_eq!(pin(Axis::Z, AxisEnd::Min), None);
}

#[test]
fn endstop_line_lookup() {
    let c = RustGrindConfig::default_config();
    assert_eq!(
        c.endstop_config.endstop_for_line(20),
        Some(EndstopIdentifier::new(Axis::X, AxisEnd::Min))
    );
    assert_eq!(
        c.endstop_config.endstop_for_line(26),
        Some(EndstopIdentifier::new(Axis::Z, AxisEnd::Max))
    );
    assert_eq!(c.endstop_config.endstop_for_line(99), None);
}

#[test]
fn envelope_extents_name_their_fields() {
    let e = WorkEnvelope {
        min_x: 1,
        min_y: 2,
        min_z: 3,
        max_x: 4,
        max_y: 5,
        max_z: 6,
    };
    assert_eq!(e.get_extent(Axis::X, AxisEnd::Min), 1);
    assert_eq!(e.get_extent(Axis::Y, AxisEnd::Min), 2);
    assert_eq!(e.get_extent(Axis::Z, AxisEnd::Min), 3);
    assert_eq!(e.get_extent(Axis::X, AxisEnd::Max), 4);
    assert_eq!(e.get_extent(Axis::Y, AxisEnd::Max), 5);
    assert_eq!(e.get_extent(Axis::Z, AxisEnd::Max), 6);
}

#[test]
fn envelope_starts_wide() {
    let e = WorkEnvelope::new();
    assert_eq!(e.min_x, -256_000_000);
    assert_eq!(e.max_x, 256_000_000);
    assert_eq!(e.min_y, -256_000_000);
    assert_eq!(e.max_y, 256_000_000);
    assert_eq!(e.min_z, 0);
    assert_eq!(e.max_z, 0);
}

#[test]
fn message_constructors_start_zeroed() {
    let p = CurrentPositionMsg::new();
    assert_eq!((p.x, p.y, p.z), (0, 0, 0));
    let params = SurfaceGrinderCutParams::new();
    assert_eq!(params.depth_of_cut, 0);
    assert_eq!(params.feed_per_pass, 0);
    assert_eq!(params.stroke_speed, 0);
    assert_eq!(params.total_depth, 0);
}
