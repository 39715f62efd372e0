//! Motion-control math for a swerve-drive robot.
//!
//! The crate centres on the discrete-time PID controller used once per
//! control cycle: the wrap-around (`input_modulus`) arithmetic for
//! continuous-input error computation, and the controller's input-history
//! bookkeeping that gates `at_setpoint` and survives `reset`.

pub mod controller;
pub mod subsystem;
