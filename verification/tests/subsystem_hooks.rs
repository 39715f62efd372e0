use swerve_control::subsystem::Subsystem;

struct CycleCounter {
    real_cycles: u32,
    sim_cycles: u32,
}

impl Subsystem for CycleCounter {
    fn periodic(&mut self) {
        self.real_cycles += 1;
    }

    fn simulation_periodic(&mut self) {
        self.sim_cycles += 1;
    }
}

#[test]
fn scheduler_hooks_are_independent() {
    let mut unit = CycleCounter { real_cycles: 0, sim_cycles: 0 };
    unit.periodic();
    unit.periodic();
    unit.simulation_periodic();
    assert_eq!(unit.real_cycles, 2);
    assert_eq!(unit.sim_cycles, 1);
}
