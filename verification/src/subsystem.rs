//! The hook a drivetrain or other periodically serviced unit implements so
//! an external scheduler can call it once per real and per simulated
//! control cycle.

use vstd::prelude::*;

verus! {

/// A unit of the robot that is serviced once per control period.
pub trait Subsystem {
    /// Called once per control cycle on real hardware.
    fn periodic(&mut self);

    /// Called once per control cycle in simulation.
    fn simulation_periodic(&mut self);
}

} // verus!
