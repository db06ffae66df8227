//! One physical motor board: two wheel channels and a shared engine.

use vstd::prelude::*;
use crate::engine::HybridEngine;
use crate::engine::PwmChannel;
use crate::wheel::StaticWheel;

verus! {

/// A motor board exposing two directly driven wheel channels and one
/// engine that supplies their shared duty cycle and fault signal.
#[derive(Clone, Copy, Debug, PartialEq, Eq)]
pub struct HybridMotor {
    pub wheel_a: StaticWheel,
    pub wheel_b: StaticWheel,
    pub engine: HybridEngine,
}

impl HybridMotor {
    /// A motor over freshly configured wheel lines (all low) and a new
    /// engine around the optional PWM channel and fault-sense level.
    pub fn new(eep: Option<PwmChannel>, fault: Option<bool>) -> (m: HybridMotor)
        requires
            eep matches Some(p) ==> 100 <= p.max_duty,
        ensures
            m.wheel_a == (StaticWheel { int1: false, int2: false }),
            m.wheel_b == (StaticWheel { int1: false, int2: false }),
            m.engine == (HybridEngine { eep, fault, minimum_force: 0 }),
            m.engine.wf(),
    {
        HybridMotor {
            wheel_a: StaticWheel::new(),
            wheel_b: StaticWheel::new(),
            engine: HybridEngine::new(eep, fault),
        }
    }
}

} // verus!
