//! Drive core for a four-wheel mecanum robot steered by a two-axis joystick.
//!
//! The crate models the full command path as a verified state machine:
//! a raw `(x, y)` byte pair is classified into one of eight drive
//! directions plus a force magnitude, and the classification is dispatched
//! into per-wheel H-bridge states and a shared duty cycle per motor unit.
//! Every public operation carries a contract that pins down the final
//! hardware state (bridge line levels and duty cycles) as a function of the
//! inputs; mirroring that state onto physical pins is left to a thin
//! unverified shell.

pub mod car;
pub mod driver;
pub mod engine;
pub mod hybrid_motor;
pub mod interpret;
pub mod motor;
pub mod wheel;

pub use car::JoystickSide;
pub use car::Mecanum;
pub use driver::Bridge;
pub use driver::BridgeState;
pub use driver::SplitSingleDriver;
pub use engine::HybridEngine;
pub use engine::PwmChannel;
pub use hybrid_motor::HybridMotor;
pub use interpret::Direction;
pub use motor::MotorFactory;
pub use motor::Vector;
pub use wheel::StaticWheel;
