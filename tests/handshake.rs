use extreme_cooling::ec::{
    read_flag, EcCommand, EcFlag, EcPort, EmbeddedController, EmbeddedControllerError,
    POLL_ATTEMPTS, POLL_INTERVAL_MS,
};
use extreme_cooling::handshake::Action;

fn controller() -> EmbeddedController {
    let command = EcPort::Command.open(0).unwrap();
    let data = EcPort::Data.open(0).unwrap();
    EmbeddedController::new(command, data)
}

/// Runs a transaction from `first`; status reads are answered from
/// `statuses` in turn (the last one repeats), data reads with `data`.
/// Gives every action asked for, the last one included.
fn run_scripted(ctl: &mut EmbeddedController, first: Action, statuses: &[u8], data: u8) -> Vec<Action> {
    let mut actions = vec![first];
    let mut a = first;
    let mut polls = 0usize;
    while !a.is_final() {
        let input = match a {
            Action::ReadStatus => {
                let s = statuses[polls.min(statuses.len() - 1)];
                polls += 1;
                s
            }
            Action::ReadData => data,
            _ => 0,
        };
        a = ctl.resume(input);
        actions.push(a);
    }
    actions
}

#[test]
fn flags_read_their_bits() {
    assert!(read_flag(0b01, EcFlag::OutputBufferFull));
    assert!(!read_flag(0b01, EcFlag::InputBufferFull));
    assert!(read_flag(0b10, EcFlag::InputBufferFull));
    assert!(!read_flag(0b10, EcFlag::OutputBufferFull));
    assert!(!read_flag(0, EcFlag::InputBufferFull));
    assert!(read_flag(0xFF, EcFlag::InputBufferFull));
    assert_eq!(EcFlag::OutputBufferFull.bit(), 0);
    assert_eq!(EcFlag::InputBufferFull.bit(), 1);
}

#[test]
fn fixed_protocol_constants() {
    assert_eq!(EcCommand::Read.opcode(), 0x80);
    assert_eq!(EcCommand::Write.opcode(), 0x81);
    assert_eq!(EcCommand::Query.opcode(), 0x84);
    assert_eq!(EcPort::Command.address(), 0x66);
    assert_eq!(EcPort::Data.address(), 0x62);
    assert_eq!(POLL_ATTEMPTS, 20);
    assert_eq!(POLL_INTERVAL_MS, 50);
}

#[test]
fn open_grants_or_reports_status() {
    let h = EcPort::Data.open(0).unwrap();
    assert_eq!(h.port(), EcPort::Data);
    assert_eq!(EcPort::Command.open(-1), Err(EmbeddedControllerError::IoPerm(-1)));
    assert_eq!(EcPort::Data.open(1), Err(EmbeddedControllerError::IoPerm(1)));
}

#[test]
fn new_controller_is_idle() {
    let ctl = controller();
    assert!(!ctl.is_busy());
    assert_eq!(ctl.command_port(), EcPort::Command);
    assert_eq!(ctl.data_port(), EcPort::Data);
}

#[test]
fn read_issues_the_exact_sequence() {
    let mut ctl = controller();
    let first = ctl.read(0xBD);
    let actions = run_scripted(&mut ctl, first, &[0, 0, 1], 0x17);
    assert_eq!(
        actions,
        vec![
            Action::ReadStatus,
            Action::WriteCommand(0x80),
            Action::ReadStatus,
            Action::WriteData(0xBD),
            Action::ReadStatus,
            Action::ReadData,
            Action::Done(Some(0x17)),
        ]
    );
    assert!(!ctl.is_busy());
}

#[test]
fn write_issues_the_exact_sequence() {
    let mut ctl = controller();
    let first = ctl.write(0xBD, 0x40);
    let actions = run_scripted(&mut ctl, first, &[0, 0, 0, 0, 1], 0xFA);
    assert_eq!(
        actions,
        vec![
            Action::ReadStatus,
            Action::WriteCommand(0x81),
            Action::ReadStatus,
            Action::WriteData(0xBD),
            Action::ReadStatus,
            Action::WriteData(0x40),
            Action::ReadStatus,
            Action::ReadStatus,
            Action::ReadData,
            Action::Done(None),
        ]
    );
}

#[test]
fn write_succeeds_without_acknowledgement() {
    let mut ctl = controller();
    let first = ctl.write(0x10, 0x01);
    let actions = run_scripted(&mut ctl, first, &[0], 0);
    assert_eq!(actions.last(), Some(&Action::Done(None)));
    assert!(!actions.contains(&Action::ReadData));
    let acks = actions.iter().skip(7).filter(|a| **a == Action::ReadStatus).count();
    assert_eq!(acks, 20);
    let pauses = actions.iter().filter(|a| **a == Action::Pause).count();
    assert_eq!(pauses, 20);
}

#[test]
fn wait_ends_on_the_first_matching_poll() {
    // Input-Buffer-Full clears on the fifth poll.
    let mut ctl = controller();
    let first = ctl.read(0x01);
    let statuses = [0b10, 0b10, 0b10, 0b10, 0, 0, 1];
    let actions = run_scripted(&mut ctl, first, &statuses, 0x33);
    let before_command = actions.iter().position(|a| *a == Action::WriteCommand(0x80)).unwrap();
    let polls = actions[..before_command].iter().filter(|a| **a == Action::ReadStatus).count();
    let pauses = actions[..before_command].iter().filter(|a| **a == Action::Pause).count();
    assert_eq!(polls, 5);
    assert_eq!(pauses, 4);
    assert_eq!(actions.last(), Some(&Action::Done(Some(0x33))));
}

#[test]
fn wait_matches_on_the_last_poll_of_the_budget() {
    let mut ctl = controller();
    let first = ctl.read(0x01);
    let mut statuses = vec![0b10u8; 19];
    statuses.extend_from_slice(&[0, 0, 1]);
    let actions = run_scripted(&mut ctl, first, &statuses, 0x44);
    assert_eq!(actions.last(), Some(&Action::Done(Some(0x44))));
}

#[test]
fn read_from_simulated_status_sequence() {
    // Both flags clear, then Output-Buffer-Full two polls after the read begins.
    let mut ctl = controller();
    let first = ctl.read(0xBD);
    let actions = run_scripted(&mut ctl, first, &[0b00, 0b00, 0b01], 0x40);
    assert_eq!(actions.last(), Some(&Action::Done(Some(0x40))));
}

#[test]
fn write_times_out_when_input_buffer_stays_full() {
    let mut ctl = controller();
    let first = ctl.write(0xBD, 0x00);
    let actions = run_scripted(&mut ctl, first, &[0b10], 0);
    assert_eq!(actions.last(), Some(&Action::Failed(EmbeddedControllerError::Timeout)));
    let polls = actions.iter().filter(|a| **a == Action::ReadStatus).count();
    let pauses = actions.iter().filter(|a| **a == Action::Pause).count();
    assert_eq!(polls, 20);
    assert_eq!(pauses as u64 * POLL_INTERVAL_MS, 1000);
    assert!(!actions.iter().any(|a| matches!(a, Action::WriteData(_) | Action::WriteCommand(_))));
    assert!(!ctl.is_busy());
}

#[test]
fn controller_is_usable_after_a_timeout() {
    let mut ctl = controller();
    let first = ctl.read(0x05);
    let actions = run_scripted(&mut ctl, first, &[0b10], 0);
    assert_eq!(actions.last(), Some(&Action::Failed(EmbeddedControllerError::Timeout)));
    let first = ctl.read(0x05);
    let actions = run_scripted(&mut ctl, first, &[0, 0, 1], 0x99);
    assert_eq!(actions.last(), Some(&Action::Done(Some(0x99))));
}

#[test]
fn read_times_out_without_output() {
    let mut ctl = controller();
    let first = ctl.read(0x05);
    let actions = run_scripted(&mut ctl, first, &[0], 0);
    assert_eq!(actions.last(), Some(&Action::Failed(EmbeddedControllerError::Timeout)));
    assert!(!actions.contains(&Action::ReadData));
}
