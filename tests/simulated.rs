use extreme_cooling::cooling::{
    CoolingState, COOLING_ACTIVE, COOLING_INACTIVE, EXTREME_COOLING_REGISTER,
};
use extreme_cooling::ec::{EcPort, EmbeddedController};
use extreme_cooling::handshake::Action;
use extreme_cooling::sim::{run_transaction, SimulatedEc};

fn controller() -> EmbeddedController {
    let command = EcPort::Command.open(0).unwrap();
    let data = EcPort::Data.open(0).unwrap();
    EmbeddedController::new(command, data)
}

#[test]
fn simulated_ec_starts_zeroed() {
    let sim = SimulatedEc::new();
    assert_eq!(sim.register(0), 0);
    assert_eq!(sim.register(0xFF), 0);
}

#[test]
fn write_then_read_returns_value() {
    for (register, value) in [(0xBDu8, 0x40u8), (0x00, 0xFF), (0xFF, 0x01), (0x10, 0x00)] {
        let mut sim = SimulatedEc::new();
        let mut ctl = controller();
        let first = ctl.write(register, value);
        assert_eq!(run_transaction(&mut ctl, &mut sim, first), Action::Done(None));
        assert_eq!(sim.register(register), value);
        let first = ctl.read(register);
        assert_eq!(run_transaction(&mut ctl, &mut sim, first), Action::Done(Some(value)));
    }
}

#[test]
fn write_leaves_other_registers() {
    let mut sim = SimulatedEc::new();
    let mut ctl = controller();
    let first = ctl.write(0x20, 0x55);
    run_transaction(&mut ctl, &mut sim, first);
    assert_eq!(sim.register(0x21), 0);
    assert_eq!(sim.register(0x1F), 0);
}

#[test]
fn two_reads_agree() {
    let mut sim = SimulatedEc::new();
    let mut ctl = controller();
    let first = ctl.write(EXTREME_COOLING_REGISTER, COOLING_ACTIVE);
    run_transaction(&mut ctl, &mut sim, first);
    let first = ctl.read(EXTREME_COOLING_REGISTER);
    let a = run_transaction(&mut ctl, &mut sim, first);
    let first = ctl.read(EXTREME_COOLING_REGISTER);
    let b = run_transaction(&mut ctl, &mut sim, first);
    assert_eq!(a, Action::Done(Some(COOLING_ACTIVE)));
    assert_eq!(a, b);
}

#[test]
fn simulated_ec_answers_each_action() {
    let mut sim = SimulatedEc::new();
    assert_eq!(sim.perform(Action::ReadStatus), 0);
    sim.perform(Action::WriteCommand(0x81));
    sim.perform(Action::WriteData(0x07));
    sim.perform(Action::WriteData(0x99));
    assert_eq!(sim.register(0x07), 0x99);
    assert_eq!(sim.perform(Action::ReadStatus), 1);
    assert_eq!(sim.perform(Action::ReadData), 0xFA);
    assert_eq!(sim.perform(Action::ReadStatus), 0);
    sim.perform(Action::WriteCommand(0x80));
    sim.perform(Action::WriteData(0x07));
    assert_eq!(sim.perform(Action::ReadData), 0x99);
}

#[test]
fn cooling_state_from_register() {
    assert_eq!(CoolingState::from(0x40), CoolingState::Active);
    assert_eq!(CoolingState::from(0x00), CoolingState::Inactive);
    assert_eq!(CoolingState::from(0x41), CoolingState::Unknown);
    assert_eq!(CoolingState::from(0xFF), CoolingState::Unknown);
}

#[test]
fn cooling_state_labels() {
    assert_eq!(CoolingState::Active.label(), "active");
    assert_eq!(CoolingState::Inactive.label(), "inactive");
    assert_eq!(CoolingState::Unknown.label(), "unknown");
}

#[test]
fn cooling_state_switch_and_values() {
    assert_eq!(CoolingState::Active.toggled(), Some(CoolingState::Inactive));
    assert_eq!(CoolingState::Inactive.toggled(), Some(CoolingState::Active));
    assert_eq!(CoolingState::Unknown.toggled(), None);
    assert_eq!(CoolingState::Active.register_value(), Some(COOLING_ACTIVE));
    assert_eq!(CoolingState::Inactive.register_value(), Some(COOLING_INACTIVE));
    assert_eq!(CoolingState::Unknown.register_value(), None);
    assert_eq!(COOLING_ACTIVE, 0x40);
    assert_eq!(EXTREME_COOLING_REGISTER, 0xBD);
}
