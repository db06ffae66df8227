//! Tests of the directly driven wheel channel and the motor assembly.

use mecanum_drive::HybridEngine;
use mecanum_drive::MotorFactory;
use mecanum_drive::PwmChannel;
use mecanum_drive::StaticWheel;
use mecanum_drive::Vector;

#[test]
fn wheel_zero_force_releases_both_lines() {
    let mut w = StaticWheel::new();
    w.update(&Vector::Backward, 50);
    w.update(&Vector::Backward, 0);
    assert!(!w.int1 && !w.int2);
    w.update(&Vector::Forward, 80);
    w.update(&Vector::Forward, 0);
    assert!(!w.int1 && !w.int2);
}

#[test]
fn wheel_direction_selects_the_high_line() {
    let mut w = StaticWheel::new();
    w.update(&Vector::Backward, 1);
    assert!(w.int1 && !w.int2);
    w.update(&Vector::Forward, 1);
    assert!(!w.int1 && w.int2);
}

#[test]
fn factory_builds_a_released_motor() {
    let m = MotorFactory::new_hybrid(Some(PwmChannel::new(511)), None);
    assert!(!m.wheel_a.int1 && !m.wheel_a.int2);
    assert!(!m.wheel_b.int1 && !m.wheel_b.int2);
    assert_eq!(m.engine.minimum_force, 0);
    assert_eq!(m.engine.eep.unwrap().max_duty, 511);
    assert!(!m.engine.is_faulty());
}

#[test]
fn factory_accepts_missing_wiring() {
    let m = MotorFactory::new_hybrid(None, None);
    assert!(m.engine.eep.is_none());
    assert!(!m.engine.is_faulty());
    let e = HybridEngine::new(None, Some(true));
    assert!(e.is_faulty());
}
