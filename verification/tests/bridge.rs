//! Tests of the bridge truth table and the driver groupings.

use mecanum_drive::driver::DRV8833Driver;
use mecanum_drive::driver::ParallelDriver;
use mecanum_drive::driver::SyncDriver;
use mecanum_drive::Bridge;
use mecanum_drive::BridgeState;

fn every_prior_state() -> Vec<Bridge> {
    vec![
        Bridge { in1: false, in2: false },
        Bridge { in1: true, in2: false },
        Bridge { in1: false, in2: true },
        Bridge { in1: true, in2: true },
    ]
}

#[test]
fn bridge_truth_table_independent_of_prior_state() {
    for prior in every_prior_state() {
        let mut b = prior;
        b.forward();
        assert!(b.in1 && !b.in2);
        assert_eq!(b.state(), BridgeState::Forward);

        let mut b = prior;
        b.reverse();
        assert!(!b.in1 && b.in2);
        assert_eq!(b.state(), BridgeState::Reverse);

        let mut b = prior;
        b.coast();
        assert!(!b.in1 && !b.in2);
        assert_eq!(b.state(), BridgeState::Coast);

        let mut b = prior;
        b.stop();
        assert!(b.in1 && b.in2);
        assert_eq!(b.state(), BridgeState::Stop);
    }
}

#[test]
fn bridge_new_coasts() {
    let b = Bridge::new();
    assert_eq!(b.state(), BridgeState::Coast);
}

#[test]
fn sync_driver_groups_two_channels() {
    let mut a = Bridge::new();
    a.forward();
    let mut b = Bridge::new();
    b.reverse();
    let d = SyncDriver::new(a, b);
    assert_eq!(d.a.state(), BridgeState::Forward);
    assert_eq!(d.b.state(), BridgeState::Reverse);
}

#[test]
fn parallel_driver_drives_both_bridges_identically() {
    let mut d = ParallelDriver::new(Bridge::new(), Bridge::new());
    d.forward();
    assert_eq!(d.a.state(), BridgeState::Forward);
    assert_eq!(d.b.state(), BridgeState::Forward);
    d.reverse();
    assert_eq!(d.a.state(), BridgeState::Reverse);
    assert_eq!(d.b.state(), BridgeState::Reverse);
    d.stop();
    assert_eq!(d.a.state(), BridgeState::Stop);
    assert_eq!(d.b.state(), BridgeState::Stop);
    d.coast();
    assert_eq!(d.a.state(), BridgeState::Coast);
    assert_eq!(d.b.state(), BridgeState::Coast);
}

#[test]
fn drv8833_sleep_line() {
    let mut d = DRV8833Driver::new_parallel(ParallelDriver::new(Bridge::new(), Bridge::new()), None);
    assert!(d.nsleep);
    d.sleep();
    assert!(!d.nsleep);
    d.wakeup();
    assert!(d.nsleep);
}

#[test]
fn drv8833_fault_defaults_false_without_fault_pin() {
    let d = DRV8833Driver::new_parallel(ParallelDriver::new(Bridge::new(), Bridge::new()), None);
    assert!(!d.is_fault());
    let d = DRV8833Driver::new_parallel(ParallelDriver::new(Bridge::new(), Bridge::new()), Some(false));
    assert!(!d.is_fault());
    let d = DRV8833Driver::new_parallel(ParallelDriver::new(Bridge::new(), Bridge::new()), Some(true));
    assert!(d.is_fault());
}

#[test]
fn drv8833_operations_reach_the_ganged_pair() {
    let mut d = DRV8833Driver::new_parallel(ParallelDriver::new(Bridge::new(), Bridge::new()), None);
    d.forward();
    assert_eq!(d.driver.a.state(), BridgeState::Forward);
    assert_eq!(d.driver.b.state(), BridgeState::Forward);
    d.coast();
    assert_eq!(d.driver.a.state(), BridgeState::Coast);
    assert_eq!(d.driver.b.state(), BridgeState::Coast);
}
