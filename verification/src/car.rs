//! The mecanum command generator.
//!
//! A [`Mecanum`] owns two split motor units — four independently driven
//! wheel channels and two shared force engines. Its two control surfaces
//! interpret a raw joystick sample identically: [`Mecanum::update`]
//! realizes holonomic translation (straight, strafe, diagonal), while
//! [`Mecanum::spin`] realizes rotation in place. Every call is a full
//! re-assertion of all four wheel states and both duty cycles, so the
//! final hardware state is a pure function of the command — there is no
//! hidden history.

use vstd::prelude::*;
use crate::driver::BridgeState;
use crate::driver::SplitSingleDriver;
use crate::driver::spec_lines;
use crate::driver::spec_unit_duty;
use crate::engine::spec_duty;
use crate::engine::spec_same_config;
use crate::engine::lemma_set_force_forgets_duty;
use crate::engine::lemma_set_force_idempotent;
use crate::interpret::Direction;
use crate::interpret::direction_of;
use crate::interpret::force_of;
use crate::interpret::spec_direction;
use crate::interpret::spec_force;

verus! {

/// Which control surface a command byte selects: 0 is the rotate-in-place
/// surface, anything else the translate surface.
#[derive(Clone, Copy, Debug, PartialEq, Eq, Structural)]
pub enum JoystickSide {
    Left,
    Right,
}

impl From<u8> for JoystickSide {
    fn from(value: u8) -> (s: JoystickSide) {
        match value {
            0 => JoystickSide::Left,
            _ => JoystickSide::Right,
        }
    }
}

impl vstd::std_specs::convert::FromSpecImpl<u8> for JoystickSide {
    open spec fn obeys_from_spec() -> bool {
        true
    }

    open spec fn from_spec(v: u8) -> JoystickSide {
        if v == 0 {
            JoystickSide::Left
        } else {
            JoystickSide::Right
        }
    }
}

/// The four-wheel mecanum drive: two split motor units, each carrying
/// two wheel channels and one shared force engine.
#[derive(Clone, Copy, Debug, PartialEq, Eq)]
pub struct Mecanum {
    pub motor_a: SplitSingleDriver,
    pub motor_b: SplitSingleDriver,
}

/// The car after a global force request: both engines take the duty,
/// all four wheel channels keep their states.
pub open spec fn spec_set_duty(c: Mecanum, force: u8) -> Mecanum {
    Mecanum {
        motor_a: spec_unit_duty(c.motor_a, force),
        motor_b: spec_unit_duty(c.motor_b, force),
    }
}

/// The car after a full re-assertion: the global force applied to both
/// engines and the four wheel channels put into the given bridge states
/// (unit A's channels first, then unit B's).
pub open spec fn spec_pattern(
    c: Mecanum,
    force: u8,
    a1: BridgeState,
    a2: BridgeState,
    b1: BridgeState,
    b2: BridgeState,
) -> Mecanum {
    let d = spec_set_duty(c, force);
    Mecanum {
        motor_a: SplitSingleDriver { a: spec_lines(a1), b: spec_lines(a2), ..d.motor_a },
        motor_b: SplitSingleDriver { a: spec_lines(b1), b: spec_lines(b2), ..d.motor_b },
    }
}

/// The halted car: duty 0 on both engines and all four wheel channels
/// coasting.
pub open spec fn spec_stop(c: Mecanum) -> Mecanum {
    spec_pattern(c, 0, BridgeState::Coast, BridgeState::Coast, BridgeState::Coast, BridgeState::Coast)
}

/// The car after a translate command: force 0 short-circuits to a stop;
/// otherwise the octant selects the wheel pattern that realizes the
/// motion.
pub open spec fn spec_update(c: Mecanum, x: u8, y: u8) -> Mecanum {
    let dx = x - 127;
    let dy = y - 127;
    let f = spec_force(dx, dy) as u8;
    if f == 0 {
        spec_stop(c)
    } else {
        match spec_direction(dx, dy) {
            Direction::Up => spec_pattern(c, f, BridgeState::Reverse, BridgeState::Reverse, BridgeState::Reverse, BridgeState::Reverse),
            Direction::Down => spec_pattern(c, f, BridgeState::Forward, BridgeState::Forward, BridgeState::Forward, BridgeState::Forward),
            Direction::Left => spec_pattern(c, f, BridgeState::Forward, BridgeState::Reverse, BridgeState::Reverse, BridgeState::Forward),
            Direction::Right => spec_pattern(c, f, BridgeState::Reverse, BridgeState::Forward, BridgeState::Forward, BridgeState::Reverse),
            Direction::TopRight => spec_pattern(c, f, BridgeState::Reverse, BridgeState::Coast, BridgeState::Coast, BridgeState::Reverse),
            Direction::TopLeft => spec_pattern(c, f, BridgeState::Coast, BridgeState::Reverse, BridgeState::Reverse, BridgeState::Coast),
            Direction::BottomLeft => spec_pattern(c, f, BridgeState::Forward, BridgeState::Coast, BridgeState::Coast, BridgeState::Forward),
            Direction::BottomRight => spec_pattern(c, f, BridgeState::Coast, BridgeState::Forward, BridgeState::Forward, BridgeState::Coast),
        }
    }
}

/// The car after a rotate command: force 0 short-circuits to a stop;
/// only Left and Right octants are actionable, any other octant applies
/// the force globally but issues no direction change.
pub open spec fn spec_spin(c: Mecanum, x: u8, y: u8) -> Mecanum {
    let dx = x - 127;
    let dy = y - 127;
    let f = spec_force(dx, dy) as u8;
    if f == 0 {
        spec_stop(c)
    } else {
        match spec_direction(dx, dy) {
            Direction::Left => spec_pattern(c, f, BridgeState::Forward, BridgeState::Reverse, BridgeState::Forward, BridgeState::Reverse),
            Direction::Right => spec_pattern(c, f, BridgeState::Reverse, BridgeState::Forward, BridgeState::Reverse, BridgeState::Forward),
            _ => spec_set_duty(c, f),
        }
    }
}

/// The car after a full three-byte command: byte 0 selects the control
/// surface (0 = rotate in place, else translate), bytes 1 and 2 are the
/// joystick sample.
pub open spec fn spec_handle(c: Mecanum, side: u8, x: u8, y: u8) -> Mecanum {
    if side == 0 {
        spec_spin(c, x, y)
    } else {
        spec_update(c, x, y)
    }
}

impl Mecanum {
    /// Both engines are well formed.
    pub open spec fn wf(self) -> bool {
        self.motor_a.wf() && self.motor_b.wf()
    }

    /// Assemble the car from its two motor units.
    pub fn new(motor_a: SplitSingleDriver, motor_b: SplitSingleDriver) -> (c: Mecanum)
        requires
            motor_a.wf(),
            motor_b.wf(),
        ensures
            c == (Mecanum { motor_a, motor_b }),
            c.wf(),
    {
        Mecanum { motor_a, motor_b }
    }

    /// Apply one global force to both motor units.
    pub fn set_duty_cycle(&mut self, force: u8)
        requires
            old(self).wf(),
            force <= 100,
        ensures
            *final(self) == spec_set_duty(*old(self), force),
            final(self).wf(),
    {
        self.motor_a.set_duty_cycle(force);
        self.motor_b.set_duty_cycle(force);
    }

    /// Interpret a raw joystick sample: recentre both axes around the
    /// neutral midpoint 127, classify the octant, and compute the
    /// clamped force magnitude. Total: every byte pair yields a value.
    pub fn interpret_direction_and_force(&self, x: u8, y: u8) -> (r: (Direction, u8))
        ensures
            r.0 == spec_direction(x - 127, y - 127),
            r.1 as int == spec_force(x - 127, y - 127),
            r.1 <= 100,
    {
        let dx: i16 = x as i16 - 127;
        let dy: i16 = y as i16 - 127;
        (direction_of(dx, dy), force_of(dx, dy))
    }

    /// Translate command: interpret the sample, then fully re-assert
    /// both duty cycles and all four wheel states for the octant's
    /// pattern; a zero magnitude stops instead.
    pub fn update(&mut self, x: u8, y: u8)
        requires
            old(self).wf(),
        ensures
            *final(self) == spec_update(*old(self), x, y),
            final(self).wf(),
    {
        let (direction, force) = self.interpret_direction_and_force(x, y);
        if force == 0 {
            self.stop();
        } else {
            match direction {
                Direction::Up => self.up(force),
                Direction::Down => self.down(force),
                Direction::Left => self.left(force),
                Direction::Right => self.right(force),
                Direction::TopRight => self.top_right(force),
                Direction::TopLeft => self.top_left(force),
                Direction::BottomLeft => self.bottom_left(force),
                Direction::BottomRight => self.bottom_right(force),
            }
        }
    }

    /// Rotate command: interpret the sample identically, but act only on
    /// the Left and Right octants; any other octant applies the force
    /// globally and issues no direction change. A zero magnitude stops.
    pub fn spin(&mut self, x: u8, y: u8)
        requires
            old(self).wf(),
        ensures
            *final(self) == spec_spin(*old(self), x, y),
            final(self).wf(),
    {
        let (direction, force) = self.interpret_direction_and_force(x, y);
        if force == 0 {
            self.stop();
        } else {
            match direction {
                Direction::Left => self.spin_left(force),
                Direction::Right => self.spin_right(force),
                _ => self.set_duty_cycle(force),
            }
        }
    }

    /// Full halt: duty 0 on both engines and all four bridges released
    /// to coast.
    pub fn stop(&mut self)
        requires
            old(self).wf(),
        ensures
            *final(self) == spec_stop(*old(self)),
            final(self).wf(),
    {
        self.set_duty_cycle(0);
        self.motor_a.a.coast();
        self.motor_a.b.coast();
        self.motor_b.a.coast();
        self.motor_b.b.coast();
    }

    /// Strafe right: diagonally opposite wheels share a rotation
    /// direction (the crossed mecanum pattern).
    pub fn right(&mut self, force: u8)
        requires
            old(self).wf(),
            force <= 100,
        ensures
            *final(self) == spec_pattern(*old(self), force, BridgeState::Reverse, BridgeState::Forward, BridgeState::Forward, BridgeState::Reverse),
            final(self).wf(),
    {
        self.set_duty_cycle(force);
        self.motor_a.a.reverse();
        self.motor_a.b.forward();
        self.motor_b.a.forward();
        self.motor_b.b.reverse();
    }

    /// Strafe left: the mirrored crossed pattern.
    pub fn left(&mut self, force: u8)
        requires
            old(self).wf(),
            force <= 100,
        ensures
            *final(self) == spec_pattern(*old(self), force, BridgeState::Forward, BridgeState::Reverse, BridgeState::Reverse, BridgeState::Forward),
            final(self).wf(),
    {
        self.set_duty_cycle(force);
        self.motor_a.a.forward();
        self.motor_a.b.reverse();
        self.motor_b.a.reverse();
        self.motor_b.b.forward();
    }

    /// Travel up: all four wheels spin the same way.
    pub fn up(&mut self, force: u8)
        requires
            old(self).wf(),
            force <= 100,
        ensures
            *final(self) == spec_pattern(*old(self), force, BridgeState::Reverse, BridgeState::Reverse, BridgeState::Reverse, BridgeState::Reverse),
            final(self).wf(),
    {
        self.set_duty_cycle(force);
        self.motor_a.a.reverse();
        self.motor_a.b.reverse();
        self.motor_b.a.reverse();
        self.motor_b.b.reverse();
    }

    /// Travel down: all four wheels spin the opposite way.
    pub fn down(&mut self, force: u8)
        requires
            old(self).wf(),
            force <= 100,
        ensures
            *final(self) == spec_pattern(*old(self), force, BridgeState::Forward, BridgeState::Forward, BridgeState::Forward, BridgeState::Forward),
            final(self).wf(),
    {
        self.set_duty_cycle(force);
        self.motor_a.a.forward();
        self.motor_a.b.forward();
        self.motor_b.a.forward();
        self.motor_b.b.forward();
    }

    /// Travel diagonally towards the top right: two wheels drive, the
    /// other two are released to coast so the robot translates without
    /// rotating.
    pub fn top_right(&mut self, force: u8)
        requires
            old(self).wf(),
            force <= 100,
        ensures
            *final(self) == spec_pattern(*old(self), force, BridgeState::Reverse, BridgeState::Coast, BridgeState::Coast, BridgeState::Reverse),
            final(self).wf(),
    {
        self.set_duty_cycle(force);
        self.motor_a.a.reverse();
        self.motor_a.b.coast();
        self.motor_b.a.coast();
        self.motor_b.b.reverse();
    }

    /// Travel diagonally towards the top left.
    pub fn top_left(&mut self, force: u8)
        requires
            old(self).wf(),
            force <= 100,
        ensures
            *final(self) == spec_pattern(*old(self), force, BridgeState::Coast, BridgeState::Reverse, BridgeState::Reverse, BridgeState::Coast),
            final(self).wf(),
    {
        self.set_duty_cycle(force);
        self.motor_a.a.coast();
        self.motor_a.b.reverse();
        self.motor_b.a.reverse();
        self.motor_b.b.coast();
    }

    /// Travel diagonally towards the bottom left.
    pub fn bottom_left(&mut self, force: u8)
        requires
            old(self).wf(),
            force <= 100,
        ensures
            *final(self) == spec_pattern(*old(self), force, BridgeState::Forward, BridgeState::Coast, BridgeState::Coast, BridgeState::Forward),
            final(self).wf(),
    {
        self.set_duty_cycle(force);
        self.motor_a.a.forward();
        self.motor_a.b.coast();
        self.motor_b.a.coast();
        self.motor_b.b.forward();
    }

    /// Travel diagonally towards the bottom right.
    pub fn bottom_right(&mut self, force: u8)
        requires
            old(self).wf(),
            force <= 100,
        ensures
            *final(self) == spec_pattern(*old(self), force, BridgeState::Coast, BridgeState::Forward, BridgeState::Forward, BridgeState::Coast),
            final(self).wf(),
    {
        self.set_duty_cycle(force);
        self.motor_a.a.coast();
        self.motor_a.b.forward();
        self.motor_b.a.forward();
        self.motor_b.b.coast();
    }

    /// Rotate in place clockwise: the left wheel pair and the right
    /// wheel pair spin in opposing directions at equal force.
    pub fn spin_right(&mut self, force: u8)
        requires
            old(self).wf(),
            force <= 100,
        ensures
            *final(self) == spec_pattern(*old(self), force, BridgeState::Reverse, BridgeState::Forward, BridgeState::Reverse, BridgeState::Forward),
            final(self).wf(),
    {
        self.set_duty_cycle(force);
        self.motor_a.a.reverse();
        self.motor_a.b.forward();
        self.motor_b.a.reverse();
        self.motor_b.b.forward();
    }

    /// Rotate in place counter-clockwise.
    pub fn spin_left(&mut self, force: u8)
        requires
            old(self).wf(),
            force <= 100,
        ensures
            *final(self) == spec_pattern(*old(self), force, BridgeState::Forward, BridgeState::Reverse, BridgeState::Forward, BridgeState::Reverse),
            final(self).wf(),
    {
        self.set_duty_cycle(force);
        self.motor_a.a.forward();
        self.motor_a.b.reverse();
        self.motor_b.a.forward();
        self.motor_b.b.reverse();
    }

    /// Dispatch a full three-byte command to the control surface its
    /// first byte selects.
    pub fn handle_command(&mut self, side: u8, x: u8, y: u8)
        requires
            old(self).wf(),
        ensures
            *final(self) == spec_handle(*old(self), side, x, y),
            final(self).wf(),
    {
        let s: JoystickSide = JoystickSide::from(side);
        match s {
            JoystickSide::Left => self.spin(x, y),
            JoystickSide::Right => self.update(x, y),
        }
    }
}

/// A centred joystick sample has magnitude 0, so both control surfaces
/// leave every wheel channel coasting at duty 0.
pub proof fn lemma_neutral_input_stops(c: Mecanum)
    ensures
        spec_update(c, 127, 127) == spec_stop(c),
        spec_spin(c, 127, 127) == spec_stop(c),
        spec_stop(c).motor_a.a.spec_state() == BridgeState::Coast,
        spec_stop(c).motor_a.b.spec_state() == BridgeState::Coast,
        spec_stop(c).motor_b.a.spec_state() == BridgeState::Coast,
        spec_stop(c).motor_b.b.spec_state() == BridgeState::Coast,
        spec_duty(spec_stop(c).motor_a.engine) == 0,
        spec_duty(spec_stop(c).motor_b.engine) == 0,
{
    assert(spec_force(0, 0) == 0);
}

/// A repeated global force request settles after the first application.
proof fn lemma_set_duty_idempotent(c: Mecanum, force: u8)
    ensures
        spec_set_duty(spec_set_duty(c, force), force) == spec_set_duty(c, force),
{
    lemma_set_force_idempotent(c.motor_a.engine, force);
    lemma_set_force_idempotent(c.motor_b.engine, force);
}

/// A repeated full re-assertion settles after the first application.
proof fn lemma_pattern_idempotent(
    c: Mecanum,
    force: u8,
    a1: BridgeState,
    a2: BridgeState,
    b1: BridgeState,
    b2: BridgeState,
)
    ensures
        spec_pattern(spec_pattern(c, force, a1, a2, b1, b2), force, a1, a2, b1, b2)
            == spec_pattern(c, force, a1, a2, b1, b2),
{
    lemma_set_force_idempotent(c.motor_a.engine, force);
    lemma_set_force_idempotent(c.motor_b.engine, force);
}

/// Same-configuration cars driven to the same pattern end up equal.
proof fn lemma_pattern_forgets_prior_state(
    c1: Mecanum,
    c2: Mecanum,
    force: u8,
    a1: BridgeState,
    a2: BridgeState,
    b1: BridgeState,
    b2: BridgeState,
)
    requires
        spec_same_config(c1.motor_a.engine, c2.motor_a.engine),
        spec_same_config(c1.motor_b.engine, c2.motor_b.engine),
    ensures
        spec_pattern(c1, force, a1, a2, b1, b2) == spec_pattern(c2, force, a1, a2, b1, b2),
{
    lemma_set_force_forgets_duty(c1.motor_a.engine, c2.motor_a.engine, force);
    lemma_set_force_forgets_duty(c1.motor_b.engine, c2.motor_b.engine, force);
}

/// A translate command is a full re-assertion of all four wheel states
/// and both duty cycles: its final hardware state does not depend on the
/// wheel states or duty cycles asserted before, only on the sample and
/// the engines' fixed configuration.
pub proof fn lemma_update_forgets_prior_state(c1: Mecanum, c2: Mecanum, x: u8, y: u8)
    requires
        spec_same_config(c1.motor_a.engine, c2.motor_a.engine),
        spec_same_config(c1.motor_b.engine, c2.motor_b.engine),
    ensures
        spec_update(c1, x, y) == spec_update(c2, x, y),
{
    let dx = x - 127;
    let dy = y - 127;
    let f = spec_force(dx, dy) as u8;
    if f == 0 {
        lemma_pattern_forgets_prior_state(c1, c2, 0, BridgeState::Coast, BridgeState::Coast, BridgeState::Coast, BridgeState::Coast);
    } else {
        match spec_direction(dx, dy) {
            Direction::Up => lemma_pattern_forgets_prior_state(c1, c2, f, BridgeState::Reverse, BridgeState::Reverse, BridgeState::Reverse, BridgeState::Reverse),
            Direction::Down => lemma_pattern_forgets_prior_state(c1, c2, f, BridgeState::Forward, BridgeState::Forward, BridgeState::Forward, BridgeState::Forward),
            Direction::Left => lemma_pattern_forgets_prior_state(c1, c2, f, BridgeState::Forward, BridgeState::Reverse, BridgeState::Reverse, BridgeState::Forward),
            Direction::Right => lemma_pattern_forgets_prior_state(c1, c2, f, BridgeState::Reverse, BridgeState::Forward, BridgeState::Forward, BridgeState::Reverse),
            Direction::TopRight => lemma_pattern_forgets_prior_state(c1, c2, f, BridgeState::Reverse, BridgeState::Coast, BridgeState::Coast, BridgeState::Reverse),
            Direction::TopLeft => lemma_pattern_forgets_prior_state(c1, c2, f, BridgeState::Coast, BridgeState::Reverse, BridgeState::Reverse, BridgeState::Coast),
            Direction::BottomLeft => lemma_pattern_forgets_prior_state(c1, c2, f, BridgeState::Forward, BridgeState::Coast, BridgeState::Coast, BridgeState::Forward),
            Direction::BottomRight => lemma_pattern_forgets_prior_state(c1, c2, f, BridgeState::Coast, BridgeState::Forward, BridgeState::Forward, BridgeState::Coast),
        }
    }
}

/// Issuing the same three-byte command twice yields the same final
/// hardware state both times: the command generator keeps no memory
/// beyond the last asserted values.
pub proof fn lemma_command_idempotent(c: Mecanum, side: u8, x: u8, y: u8)
    ensures
        spec_handle(spec_handle(c, side, x, y), side, x, y) == spec_handle(c, side, x, y),
{
    let dx = x - 127;
    let dy = y - 127;
    let f = spec_force(dx, dy) as u8;
    if f == 0 {
        lemma_pattern_idempotent(c, 0, BridgeState::Coast, BridgeState::Coast, BridgeState::Coast, BridgeState::Coast);
    } else if side == 0 {
        match spec_direction(dx, dy) {
            Direction::Left => lemma_pattern_idempotent(c, f, BridgeState::Forward, BridgeState::Reverse, BridgeState::Forward, BridgeState::Reverse),
            Direction::Right => lemma_pattern_idempotent(c, f, BridgeState::Reverse, BridgeState::Forward, BridgeState::Reverse, BridgeState::Forward),
            _ => lemma_set_duty_idempotent(c, f),
        }
    } else {
        match spec_direction(dx, dy) {
            Direction::Up => lemma_pattern_idempotent(c, f, BridgeState::Reverse, BridgeState::Reverse, BridgeState::Reverse, BridgeState::Reverse),
            Direction::Down => lemma_pattern_idempotent(c, f, BridgeState::Forward, BridgeState::Forward, BridgeState::Forward, BridgeState::Forward),
            Direction::Left => lemma_pattern_idempotent(c, f, BridgeState::Forward, BridgeState::Reverse, BridgeState::Reverse, BridgeState::Forward),
            Direction::Right => lemma_pattern_idempotent(c, f, BridgeState::Reverse, BridgeState::Forward, BridgeState::Forward, BridgeState::Reverse),
            Direction::TopRight => lemma_pattern_idempotent(c, f, BridgeState::Reverse, BridgeState::Coast, BridgeState::Coast, BridgeState::Reverse),
            Direction::TopLeft => lemma_pattern_idempotent(c, f, BridgeState::Coast, BridgeState::Reverse, BridgeState::Reverse, BridgeState::Coast),
            Direction::BottomLeft => lemma_pattern_idempotent(c, f, BridgeState::Forward, BridgeState::Coast, BridgeState::Coast, BridgeState::Forward),
            Direction::BottomRight => lemma_pattern_idempotent(c, f, BridgeState::Coast, BridgeState::Forward, BridgeState::Forward, BridgeState::Coast),
        }
    }
}

} // verus!
