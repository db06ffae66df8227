//! Wheel-level rotation commands and motor assembly.

use vstd::prelude::*;
use crate::engine::HybridEngine;
use crate::engine::PwmChannel;
use crate::hybrid_motor::HybridMotor;
use crate::wheel::StaticWheel;

verus! {

/// The sign of a single wheel's spin, independent of the robot's travel
/// direction: each wheel is told Forward or Backward to realize the
/// commanded motion.
#[derive(Clone, Copy, Debug, PartialEq, Eq, Structural)]
pub enum Vector {
    Backward,
    Forward,
}

/// Assembles motors from their configured parts.
pub struct MotorFactory;

impl MotorFactory {
    /// Build a hybrid motor: two wheel channels over freshly configured
    /// output lines, and one shared engine around the optional PWM
    /// channel and optional fault-sense level.
    pub fn new_hybrid(eep: Option<PwmChannel>, fault: Option<bool>) -> (m: HybridMotor)
        requires
            eep matches Some(p) ==> 100 <= p.max_duty,
        ensures
            m.wheel_a == (StaticWheel { int1: false, int2: false }),
            m.wheel_b == (StaticWheel { int1: false, int2: false }),
            m.engine == (HybridEngine { eep, fault, minimum_force: 0 }),
            m.engine.wf(),
    {
        HybridMotor::new(eep, fault)
    }
}

} // verus!
