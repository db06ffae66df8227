//! H-bridge and motor-driver state models.
//!
//! A [`Bridge`] is one H-bridge: two digital output lines whose last
//! asserted levels select one of four drive states (the truth table of
//! [`BridgeState`]). The driver types group bridges the way the motor
//! boards wire them: two independently addressed channels, a ganged pair
//! driven identically, or a split pair sharing one PWM force engine.

use vstd::prelude::*;
use crate::engine::HybridEngine;
use crate::engine::spec_set_force;

verus! {

/// The four drive states of one H-bridge, as selected by its two digital
/// lines: exactly one state is active for any pair of levels.
#[derive(Clone, Copy, Debug, PartialEq, Eq, Structural)]
pub enum BridgeState {
    /// in1 high, in2 low: the motor winding spins one way.
    Forward,
    /// in1 low, in2 high: the winding spins the other way.
    Reverse,
    /// Both lines low: the winding floats and decelerates freely.
    Coast,
    /// Both lines high: active brake, fast current decay.
    Stop,
}

/// The two digital lines selecting each bridge state.
pub open spec fn spec_lines(s: BridgeState) -> Bridge {
    match s {
        BridgeState::Forward => Bridge { in1: true, in2: false },
        BridgeState::Reverse => Bridge { in1: false, in2: true },
        BridgeState::Coast => Bridge { in1: false, in2: false },
        BridgeState::Stop => Bridge { in1: true, in2: true },
    }
}

/// The four-state truth table is a bijection: reading the lines back
/// through `Bridge::spec_state` recovers exactly the state that was
/// asserted, so exactly one of the four states is active at any time.
pub proof fn lemma_lines_state_roundtrip(s: BridgeState)
    ensures
        spec_lines(s).spec_state() == s,
{
}

/// One H-bridge pair of digital control lines (`true` = line driven high).
/// The fields hold the last asserted level of each line; every operation
/// re-asserts both lines unconditionally, so the state after an operation
/// never depends on the state before it.
#[derive(Clone, Copy, Debug, PartialEq, Eq, Structural)]
pub struct Bridge {
    pub in1: bool,
    pub in2: bool,
}

impl Bridge {
    /// The drive state selected by the current line levels.
    pub open spec fn spec_state(self) -> BridgeState {
        if self.in1 && !self.in2 {
            BridgeState::Forward
        } else if !self.in1 && self.in2 {
            BridgeState::Reverse
        } else if !self.in1 && !self.in2 {
            BridgeState::Coast
        } else {
            BridgeState::Stop
        }
    }

    /// A bridge over two freshly configured output lines; an output line
    /// starts out driven low, so a new bridge coasts.
    pub fn new() -> (b: Bridge)
        ensures
            b == spec_lines(BridgeState::Coast),
    {
        Bridge { in1: false, in2: false }
    }

    /// The drive state selected by the current line levels.
    pub fn state(&self) -> (s: BridgeState)
        ensures
            s == self.spec_state(),
    {
        if self.in1 && !self.in2 {
            BridgeState::Forward
        } else if !self.in1 && self.in2 {
            BridgeState::Reverse
        } else if !self.in1 && !self.in2 {
            BridgeState::Coast
        } else {
            BridgeState::Stop
        }
    }

    /// Drive the winding forward: in1 high, in2 low.
    pub fn forward(&mut self)
        ensures
            *final(self) == spec_lines(BridgeState::Forward),
    {
        self.in1 = true;
        self.in2 = false;
    }

    /// Drive the winding in reverse: in1 low, in2 high.
    pub fn reverse(&mut self)
        ensures
            *final(self) == spec_lines(BridgeState::Reverse),
    {
        self.in1 = false;
        self.in2 = true;
    }

    /// Release the winding: both lines low, the motor spins down freely.
    pub fn coast(&mut self)
        ensures
            *final(self) == spec_lines(BridgeState::Coast),
    {
        self.in1 = false;
        self.in2 = false;
    }

    /// Brake actively: both lines high, fast current decay.
    pub fn stop(&mut self)
        ensures
            *final(self) == spec_lines(BridgeState::Stop),
    {
        self.in1 = true;
        self.in2 = true;
    }
}

/// Two bridges on one motor board, addressed independently: each bridge
/// is one wheel channel, commanded through the `a` and `b` fields.
#[derive(Clone, Copy, Debug, PartialEq, Eq, Structural)]
pub struct SyncDriver {
    pub a: Bridge,
    pub b: Bridge,
}

impl SyncDriver {
    /// Group two bridges into one dual-channel unit.
    pub fn new(a: Bridge, b: Bridge) -> (d: SyncDriver)
        ensures
            d == (SyncDriver { a, b }),
    {
        SyncDriver { a, b }
    }
}

/// Two bridges ganged in parallel: every operation drives both bridges
/// identically, either to double the current capacity or to guarantee
/// lock-step behaviour of the two outputs.
#[derive(Clone, Copy, Debug, PartialEq, Eq, Structural)]
pub struct ParallelDriver {
    pub a: Bridge,
    pub b: Bridge,
}

/// Both bridges of a ganged pair put into the same state.
pub open spec fn spec_ganged(s: BridgeState) -> ParallelDriver {
    ParallelDriver { a: spec_lines(s), b: spec_lines(s) }
}

impl ParallelDriver {
    /// Gang two bridges so that they are always driven identically.
    pub fn new(a: Bridge, b: Bridge) -> (d: ParallelDriver)
        ensures
            d == (ParallelDriver { a, b }),
    {
        ParallelDriver { a, b }
    }

    /// Drive both ganged bridges forward.
    pub fn forward(&mut self)
        ensures
            *final(self) == spec_ganged(BridgeState::Forward),
    {
        self.a.forward();
        self.b.forward();
    }

    /// Drive both ganged bridges in reverse.
    pub fn reverse(&mut self)
        ensures
            *final(self) == spec_ganged(BridgeState::Reverse),
    {
        self.a.reverse();
        self.b.reverse();
    }

    /// Let both ganged bridges coast.
    pub fn coast(&mut self)
        ensures
            *final(self) == spec_ganged(BridgeState::Coast),
    {
        self.a.coast();
        self.b.coast();
    }

    /// Brake both ganged bridges.
    pub fn stop(&mut self)
        ensures
            *final(self) == spec_ganged(BridgeState::Stop),
    {
        self.a.stop();
        self.b.stop();
    }
}

/// One dual-bridge motor driver chip in its ganged wiring, with its
/// sleep line (`nsleep` high = chip awake) and an optional fault-sense
/// level (`None` when the fault pin is not wired).
#[derive(Clone, Copy, Debug, PartialEq, Eq)]
pub struct DRV8833Driver {
    pub driver: ParallelDriver,
    pub nsleep: bool,
    pub fault: Option<bool>,
}

impl DRV8833Driver {
    /// A chip wired for parallel (ganged) mode, awake.
    pub fn new_parallel(driver: ParallelDriver, fault: Option<bool>) -> (d: DRV8833Driver)
        ensures
            d == (DRV8833Driver { driver, nsleep: true, fault }),
    {
        DRV8833Driver { driver, nsleep: true, fault }
    }

    /// Drive the ganged pair forward.
    pub fn forward(&mut self)
        ensures
            *final(self) == (DRV8833Driver { driver: spec_ganged(BridgeState::Forward), ..*old(self) }),
    {
        self.driver.forward();
    }

    /// Drive the ganged pair in reverse.
    pub fn reverse(&mut self)
        ensures
            *final(self) == (DRV8833Driver { driver: spec_ganged(BridgeState::Reverse), ..*old(self) }),
    {
        self.driver.reverse();
    }

    /// Let the ganged pair coast.
    pub fn coast(&mut self)
        ensures
            *final(self) == (DRV8833Driver { driver: spec_ganged(BridgeState::Coast), ..*old(self) }),
    {
        self.driver.coast();
    }

    /// Brake the ganged pair.
    pub fn stop(&mut self)
        ensures
            *final(self) == (DRV8833Driver { driver: spec_ganged(BridgeState::Stop), ..*old(self) }),
    {
        self.driver.stop();
    }

    /// Pull the sleep line low, putting the chip to sleep.
    pub fn sleep(&mut self)
        ensures
            *final(self) == (DRV8833Driver { nsleep: false, ..*old(self) }),
    {
        self.nsleep = false;
    }

    /// Pull the sleep line high, waking the chip.
    pub fn wakeup(&mut self)
        ensures
            *final(self) == (DRV8833Driver { nsleep: true, ..*old(self) }),
    {
        self.nsleep = true;
    }

    /// Report the fault-sense level; with no fault pin wired this is
    /// always false.
    pub fn is_fault(&self) -> (r: bool)
        ensures
            r == (self.fault == Some(true)),
    {
        match self.fault {
            Some(level) => level,
            None => false,
        }
    }
}

/// One dual-bridge chip in split mode: its two bridges serve as two
/// independently addressed wheel channels, while one shared force engine
/// supplies the duty cycle and the fault signal for both.
#[derive(Clone, Copy, Debug, PartialEq, Eq)]
pub struct SplitSingleDriver {
    pub a: Bridge,
    pub b: Bridge,
    pub engine: HybridEngine,
}

/// A split unit after a shared duty-cycle request: only the engine
/// changes, both wheel channels keep their states.
pub open spec fn spec_unit_duty(u: SplitSingleDriver, force: u8) -> SplitSingleDriver {
    SplitSingleDriver { engine: spec_set_force(u.engine, force), ..u }
}

impl SplitSingleDriver {
    /// The unit's engine is well formed.
    pub open spec fn wf(self) -> bool {
        self.engine.wf()
    }

    /// Assemble a split unit from its two wheel channels and the shared
    /// engine.
    pub fn new(a: Bridge, b: Bridge, engine: HybridEngine) -> (u: SplitSingleDriver)
        requires
            engine.wf(),
        ensures
            u == (SplitSingleDriver { a, b, engine }),
            u.wf(),
    {
        SplitSingleDriver { a, b, engine }
    }

    /// Apply a force request to the shared engine; both wheel channels
    /// keep their bridge states.
    pub fn set_duty_cycle(&mut self, force: u8)
        requires
            old(self).wf(),
            force <= 100,
        ensures
            *final(self) == spec_unit_duty(*old(self), force),
            final(self).wf(),
    {
        self.engine.set_force(force);
    }

    /// Report the shared engine's fault level.
    pub fn is_fault(&self) -> (r: bool)
        ensures
            r == (self.engine.fault == Some(true)),
    {
        self.engine.is_faulty()
    }
}

} // verus!
