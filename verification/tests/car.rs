//! Tests of the mecanum command generator: wheel patterns per octant,
//! the zero-force stop path, and idempotence of command handling.

use mecanum_drive::Bridge;
use mecanum_drive::BridgeState;
use mecanum_drive::HybridEngine;
use mecanum_drive::JoystickSide;
use mecanum_drive::Mecanum;
use mecanum_drive::PwmChannel;
use mecanum_drive::SplitSingleDriver;

fn unit(max_duty: u32, floor: u8) -> SplitSingleDriver {
    let mut engine = HybridEngine::new(Some(PwmChannel::new(max_duty)), None);
    engine.set_min_force(floor);
    SplitSingleDriver::new(Bridge::new(), Bridge::new(), engine)
}

fn car() -> Mecanum {
    Mecanum::new(unit(255, 0), unit(255, 0))
}

fn states(c: &Mecanum) -> [BridgeState; 4] {
    [
        c.motor_a.a.state(),
        c.motor_a.b.state(),
        c.motor_b.a.state(),
        c.motor_b.b.state(),
    ]
}

fn duties(c: &Mecanum) -> (u32, u32) {
    (
        c.motor_a.engine.eep.unwrap().duty,
        c.motor_b.engine.eep.unwrap().duty,
    )
}

#[test]
fn centred_stick_stops_everything() {
    let mut c = car();
    c.update(255, 0);
    c.update(127, 127);
    assert_eq!(states(&c), [BridgeState::Coast; 4]);
    assert_eq!(duties(&c), (0, 0));

    let mut c = car();
    c.update(0, 255);
    c.spin(127, 127);
    assert_eq!(states(&c), [BridgeState::Coast; 4]);
    assert_eq!(duties(&c), (0, 0));
}

#[test]
fn up_drives_all_four_wheels_alike() {
    let mut c = car();
    c.update(127, 0);
    // dy = -127, angle 180 degrees: travel Up, every wheel in the same
    // rotation direction at the same nonzero force.
    assert_eq!(states(&c), [BridgeState::Reverse; 4]);
    let (da, db) = duties(&c);
    assert_eq!(da, db);
    assert!(da > 0);
}

#[test]
fn right_uses_the_crossed_strafe_pattern() {
    let mut c = car();
    c.update(255, 127);
    // dx = 128, angle 90 degrees: strafe Right; diagonally opposite
    // wheels share a rotation direction.
    let s = states(&c);
    assert_eq!(s[0], BridgeState::Reverse);
    assert_eq!(s[1], BridgeState::Forward);
    assert_eq!(s[2], BridgeState::Forward);
    assert_eq!(s[3], BridgeState::Reverse);
    assert_eq!(s[0], s[3]);
    assert_eq!(s[1], s[2]);
}

#[test]
fn top_right_drives_two_wheels_and_coasts_two() {
    let mut c = car();
    c.update(255, 0);
    let s = states(&c);
    assert_eq!(s[0], BridgeState::Reverse);
    assert_eq!(s[1], BridgeState::Coast);
    assert_eq!(s[2], BridgeState::Coast);
    assert_eq!(s[3], BridgeState::Reverse);
    let driven = s.iter().filter(|b| **b != BridgeState::Coast).count();
    assert_eq!(driven, 2);
}

#[test]
fn down_and_left_patterns() {
    let mut c = car();
    c.update(127, 255);
    assert_eq!(states(&c), [BridgeState::Forward; 4]);
    let mut c = car();
    c.update(0, 127);
    assert_eq!(
        states(&c),
        [BridgeState::Forward, BridgeState::Reverse, BridgeState::Reverse, BridgeState::Forward]
    );
}

#[test]
fn remaining_diagonal_patterns() {
    let mut c = car();
    c.update(0, 0);
    // dx = -127, dy = -127: TopLeft.
    assert_eq!(
        states(&c),
        [BridgeState::Coast, BridgeState::Reverse, BridgeState::Reverse, BridgeState::Coast]
    );
    let mut c = car();
    c.update(0, 255);
    // BottomLeft.
    assert_eq!(
        states(&c),
        [BridgeState::Forward, BridgeState::Coast, BridgeState::Coast, BridgeState::Forward]
    );
    let mut c = car();
    c.update(255, 255);
    // BottomRight.
    assert_eq!(
        states(&c),
        [BridgeState::Coast, BridgeState::Forward, BridgeState::Forward, BridgeState::Coast]
    );
}

#[test]
fn spin_acts_on_left_and_right_octants() {
    let mut c = car();
    c.spin(255, 127);
    assert_eq!(
        states(&c),
        [BridgeState::Reverse, BridgeState::Forward, BridgeState::Reverse, BridgeState::Forward]
    );
    let mut c = car();
    c.spin(0, 127);
    assert_eq!(
        states(&c),
        [BridgeState::Forward, BridgeState::Reverse, BridgeState::Forward, BridgeState::Reverse]
    );
}

#[test]
fn spin_outside_left_and_right_only_applies_force() {
    let mut c = car();
    c.update(255, 127);
    let before = states(&c);
    // dy = -127: the Up octant is not actionable for spinning; the wheel
    // states stay, only the duty is re-asserted.
    c.spin(127, 0);
    assert_eq!(states(&c), before);
    let (da, db) = duties(&c);
    assert_eq!(da, db);
    assert!(da > 0);
}

#[test]
fn stop_releases_all_four_bridges() {
    let mut c = car();
    c.update(255, 127);
    c.stop();
    assert_eq!(states(&c), [BridgeState::Coast; 4]);
    assert_eq!(duties(&c), (0, 0));
}

#[test]
fn same_command_twice_yields_the_same_state() {
    let commands: [(u8, u8, u8); 6] = [
        (0, 255, 127),
        (0, 127, 0),
        (0, 127, 127),
        (1, 255, 0),
        (1, 127, 127),
        (9, 0, 255),
    ];
    for (side, x, y) in commands {
        let mut c = car();
        c.update(100, 30);
        c.handle_command(side, x, y);
        let once = c;
        c.handle_command(side, x, y);
        assert_eq!(c, once, "command ({}, {}, {})", side, x, y);
    }
}

#[test]
fn update_forgets_prior_state() {
    let mut c1 = car();
    c1.update(255, 255);
    let mut c2 = car();
    c2.spin(0, 127);
    let mut c3 = car();
    for (side, x, y) in [(0u8, 10u8, 200u8), (1, 127, 0), (3, 80, 80)] {
        c3.handle_command(side, x, y);
    }
    c1.update(200, 30);
    c2.update(200, 30);
    c3.update(200, 30);
    assert_eq!(c1, c2);
    assert_eq!(c1, c3);
}

#[test]
fn handle_command_selects_the_surface_by_its_first_byte() {
    let mut by_handle = car();
    by_handle.handle_command(0, 255, 127);
    let mut by_spin = car();
    by_spin.spin(255, 127);
    assert_eq!(by_handle, by_spin);

    let mut by_handle = car();
    by_handle.handle_command(42, 255, 127);
    let mut by_update = car();
    by_update.update(255, 127);
    assert_eq!(by_handle, by_update);
}

#[test]
fn joystick_side_from_byte() {
    assert_eq!(JoystickSide::from(0), JoystickSide::Left);
    assert_eq!(JoystickSide::from(1), JoystickSide::Right);
    assert_eq!(JoystickSide::from(200), JoystickSide::Right);
}

#[test]
fn duty_respects_the_configured_floor() {
    let mut c = Mecanum::new(unit(255, 40), unit(255, 40));
    // force of (3, 4) recentred is 5: well below the floor, still driven
    // at or above it.
    c.update(130, 131);
    let (da, db) = duties(&c);
    assert_eq!(da, db);
    assert!(da >= 40);
    c.update(127, 127);
    assert_eq!(duties(&c), (0, 0));
}

#[test]
fn full_force_reaches_max_duty() {
    let mut c = Mecanum::new(unit(1023, 25), unit(1023, 25));
    c.update(127, 0);
    assert_eq!(duties(&c), (1023, 1023));
}

#[test]
fn set_duty_cycle_reaches_both_units() {
    let mut c = car();
    c.set_duty_cycle(50);
    let (da, db) = duties(&c);
    assert_eq!(da, db);
    assert_eq!(da, remapped(50, 0, 255));
}

fn remapped(force: u32, min: u32, max: u32) -> u32 {
    force * (max - min) / 100 + min
}

#[test]
fn interpret_is_pure_and_total() {
    let c = car();
    let (d, f) = c.interpret_direction_and_force(127, 0);
    assert_eq!(d, mecanum_drive::Direction::Up);
    assert_eq!(f, 100);
    let (d, f) = c.interpret_direction_and_force(127, 127);
    assert_eq!(d, mecanum_drive::Direction::Down);
    assert_eq!(f, 0);
    let (d, f) = c.interpret_direction_and_force(130, 131);
    assert_eq!(d, mecanum_drive::Direction::BottomRight);
    assert_eq!(f, 5);
}
