//! Force engine: force-to-duty-cycle remapping and fault sensing.
//!
//! A [`HybridEngine`] owns an optional PWM channel and an optional
//! fault-sense level. An abstract force request in `[0, 100]` is remapped
//! linearly into `[minimum_force, max_duty]`, except that force 0 always
//! yields duty 0 so that a stop request releases the motor regardless of
//! the configured floor. Absent wiring degrades gracefully: no PWM channel
//! makes force control a no-op, no fault line makes fault reporting
//! constantly false.

use vstd::prelude::*;
use vstd::arithmetic::div_mod::lemma_div_is_ordered;
use vstd::arithmetic::div_mod::lemma_div_multiples_vanish;
use vstd::arithmetic::mul::lemma_mul_inequality;
use vstd::arithmetic::mul::lemma_mul_nonnegative;

verus! {

/// Linear remap of a percentage in `[0, 100]` onto `[min, max]`,
/// rounding the scaled span down.
pub open spec fn spec_remap(value: int, min: int, max: int) -> int {
    value * (max - min) / 100 + min
}

/// The remapped duty stays inside `[min, max]` and hits the endpoints
/// exactly at 0 and 100.
pub proof fn lemma_remap_bounds(value: int, min: int, max: int)
    requires
        0 <= value <= 100,
        0 <= min <= max,
    ensures
        min <= spec_remap(value, min, max) <= max,
        value == 0 ==> spec_remap(value, min, max) == min,
        value == 100 ==> spec_remap(value, min, max) == max,
{
    let span = max - min;
    lemma_mul_nonnegative(value, span);
    lemma_div_is_ordered(0, value * span, 100);
    lemma_mul_inequality(value, 100, span);
    lemma_div_is_ordered(value * span, 100 * span, 100);
    lemma_div_multiples_vanish(span, 100);
    assert(100 * span == span * 100);
}

/// Remap `value` (a percentage, at most 100) from `[0, 100]` onto
/// `[min, max]`.
pub fn remap(value: u32, min: u8, max: u32) -> (duty: u32)
    requires
        value <= 100,
        min as u32 <= max,
    ensures
        duty == spec_remap(value as int, min as int, max as int),
        min <= duty <= max,
{
    let span: u64 = (max - min as u32) as u64;
    proof {
        lemma_mul_inequality(value as int, 100, span as int);
        lemma_remap_bounds(value as int, min as int, max as int);
    }
    let scaled: u64 = value as u64 * span / 100 + min as u64;
    scaled as u32
}

/// The state of one PWM output channel: the hardware's maximum duty
/// value, the last duty written, and whether the channel is enabled.
#[derive(Clone, Copy, Debug, PartialEq, Eq, Structural)]
pub struct PwmChannel {
    pub max_duty: u32,
    pub duty: u32,
    pub enabled: bool,
}

impl PwmChannel {
    /// A freshly configured channel: nothing written yet, output disabled.
    /// The timer must offer at least the hundred duty steps that the
    /// percentage interface addresses.
    pub fn new(max_duty: u32) -> (p: PwmChannel)
        requires
            100 <= max_duty,
        ensures
            p == (PwmChannel { max_duty, duty: 0, enabled: false }),
    {
        PwmChannel { max_duty, duty: 0, enabled: false }
    }
}

/// Force engine of one motor unit: optional PWM output, optional
/// fault-sense input level, and the configured minimum-force floor.
///
/// `fault` models the fault-sense line: `None` when no line is wired,
/// otherwise the sampled level (`true` = faulted).
#[derive(Clone, Copy, Debug, PartialEq, Eq)]
pub struct HybridEngine {
    pub eep: Option<PwmChannel>,
    pub fault: Option<bool>,
    pub minimum_force: u8,
}

/// The duty cycle a force request writes: force 0 short-circuits to duty
/// 0; any other force is remapped into `[minimum_force, max_duty]`.
pub open spec fn spec_requested_duty(e: HybridEngine, max_duty: int, force: u8) -> int {
    if force == 0 {
        0
    } else {
        spec_remap(force as int, e.minimum_force as int, max_duty)
    }
}

/// The engine after a force request: no PWM channel makes it a no-op,
/// otherwise only the channel's duty changes.
pub open spec fn spec_set_force(e: HybridEngine, force: u8) -> HybridEngine {
    match e.eep {
        None => e,
        Some(p) => HybridEngine {
            eep: Some(
                PwmChannel {
                    duty: spec_requested_duty(e, p.max_duty as int, force) as u32,
                    ..p
                },
            ),
            ..e
        },
    }
}

/// The duty currently written to the engine's PWM channel (0 when no
/// channel is wired).
pub open spec fn spec_duty(e: HybridEngine) -> int {
    match e.eep {
        Some(p) => p.duty as int,
        None => 0,
    }
}

/// The hardware maximum duty of the engine's PWM channel (0 when no
/// channel is wired).
pub open spec fn spec_max_duty(e: HybridEngine) -> int {
    match e.eep {
        Some(p) => p.max_duty as int,
        None => 0,
    }
}

impl HybridEngine {
    /// The configured floor is a percentage, and a wired PWM channel
    /// covers the whole percentage scale.
    pub open spec fn wf(self) -> bool {
        &&& self.minimum_force <= 100
        &&& self.eep matches Some(p) ==> 100 <= p.max_duty
    }

    /// A new engine around whatever wiring exists, with no floor
    /// configured yet.
    pub fn new(eep: Option<PwmChannel>, fault: Option<bool>) -> (e: HybridEngine)
        requires
            eep matches Some(p) ==> 100 <= p.max_duty,
        ensures
            e == (HybridEngine { eep, fault, minimum_force: 0 }),
            e.wf(),
    {
        HybridEngine { eep, fault, minimum_force: 0 }
    }

    /// Enable the PWM output, if one is wired.
    pub fn enable(&mut self)
        ensures
            *final(self) == (HybridEngine {
                eep: match old(self).eep {
                    Some(p) => Some(PwmChannel { enabled: true, ..p }),
                    None => None,
                },
                ..*old(self)
            }),
    {
        if let Some(eep) = &mut self.eep {
            eep.enabled = true;
        }
    }

    /// Disable the PWM output, if one is wired.
    pub fn disable(&mut self)
        ensures
            *final(self) == (HybridEngine {
                eep: match old(self).eep {
                    Some(p) => Some(PwmChannel { enabled: false, ..p }),
                    None => None,
                },
                ..*old(self)
            }),
    {
        if let Some(eep) = &mut self.eep {
            eep.enabled = false;
        }
    }

    /// Apply a force request to the PWM channel: 0 writes duty 0
    /// unconditionally, anything else is remapped above the floor.
    pub fn set_force(&mut self, force: u8)
        requires
            old(self).wf(),
            force <= 100,
        ensures
            *final(self) == spec_set_force(*old(self), force),
            final(self).wf(),
    {
        if let Some(eep) = &mut self.eep {
            let max_duty: u32 = eep.max_duty;
            let duty: u32 = match force {
                0 => 0,
                force => remap(force as u32, self.minimum_force, max_duty),
            };
            eep.duty = duty;
        }
    }

    /// Configure the minimum-force floor (a percentage).
    pub fn set_min_force(&mut self, force: u8)
        requires
            force <= 100,
        ensures
            *final(self) == (HybridEngine { minimum_force: force, ..*old(self) }),
    {
        self.minimum_force = force;
    }

    /// Report the fault-sense level; with no fault line wired this is
    /// always false.
    pub fn is_faulty(&self) -> (r: bool)
        ensures
            r == (self.fault == Some(true)),
    {
        match self.fault {
            Some(level) => level,
            None => false,
        }
    }
}

/// A force request is a full re-assertion: repeating the same request
/// leaves the engine exactly where the first request put it.
pub proof fn lemma_set_force_idempotent(e: HybridEngine, force: u8)
    ensures
        spec_set_force(spec_set_force(e, force), force) == spec_set_force(e, force),
{
}

/// Two engines share a configuration when they differ at most in the
/// duty last written: same floor, same fault wiring, and the same PWM
/// channel geometry.
pub open spec fn spec_same_config(e1: HybridEngine, e2: HybridEngine) -> bool {
    &&& e1.minimum_force == e2.minimum_force
    &&& e1.fault == e2.fault
    &&& match (e1.eep, e2.eep) {
        (None, None) => true,
        (Some(p1), Some(p2)) => p1.max_duty == p2.max_duty && p1.enabled == p2.enabled,
        _ => false,
    }
}

/// A force request overwrites the one piece of state in which two
/// same-configuration engines may differ, so it drives them to the same
/// state.
pub proof fn lemma_set_force_forgets_duty(e1: HybridEngine, e2: HybridEngine, force: u8)
    requires
        spec_same_config(e1, e2),
    ensures
        spec_set_force(e1, force) == spec_set_force(e2, force),
{
}

/// Force remapping keeps every nonzero request inside
/// `[minimum_force, max_duty]`, force 0 always yields duty 0 even with a
/// positive floor, and force 100 always yields the hardware maximum.
pub proof fn lemma_force_remap(e: HybridEngine, force: u8)
    requires
        e.wf(),
        force <= 100,
    ensures
        spec_duty(spec_set_force(e, 0)) == 0,
        e.eep is Some ==> spec_duty(spec_set_force(e, 100)) == spec_max_duty(e),
        e.eep is Some && 0 < force ==> e.minimum_force
            <= spec_duty(spec_set_force(e, force)) <= spec_max_duty(e),
{
    if let Some(p) = e.eep {
        lemma_remap_bounds(100, e.minimum_force as int, p.max_duty as int);
        if 0 < force {
            lemma_remap_bounds(force as int, e.minimum_force as int, p.max_duty as int);
        }
    }
}

} // verus!
