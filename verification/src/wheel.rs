//! One wheel channel driven directly through its two digital lines.

use vstd::prelude::*;
use crate::motor::Vector;

verus! {

/// A wheel channel holding the last asserted level of its two control
/// lines (`true` = high).
#[derive(Clone, Copy, Debug, PartialEq, Eq, Structural)]
pub struct StaticWheel {
    pub int1: bool,
    pub int2: bool,
}

/// The lines a wheel update asserts: force 0 releases both lines
/// (coast), otherwise the rotation direction selects which line is high.
pub open spec fn spec_wheel_lines(direction: Vector, force: u8) -> StaticWheel {
    if force == 0 {
        StaticWheel { int1: false, int2: false }
    } else {
        match direction {
            Vector::Backward => StaticWheel { int1: true, int2: false },
            Vector::Forward => StaticWheel { int1: false, int2: true },
        }
    }
}

impl StaticWheel {
    /// A wheel over two freshly configured output lines, both low.
    pub fn new() -> (w: StaticWheel)
        ensures
            w == (StaticWheel { int1: false, int2: false }),
    {
        StaticWheel { int1: false, int2: false }
    }

    /// Re-assert both lines for the requested rotation: force 0
    /// short-circuits to a release of both lines and never reaches the
    /// direction dispatch.
    pub fn update(&mut self, direction: &Vector, force: u8)
        ensures
            *final(self) == spec_wheel_lines(*direction, force),
    {
        if force == 0 {
            self.int1 = false;
            self.int2 = false;
            return;
        }
        match direction {
            Vector::Backward => {
                self.int1 = true;
                self.int2 = false;
            },
            Vector::Forward => {
                self.int1 = false;
                self.int2 = true;
            },
        }
    }
}

} // verus!
