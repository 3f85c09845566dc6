use vstd::prelude::*;
use crate::handshake::{Action, Phase, Step, TransactionView, enter, next, read_script, write_script};

verus! {

/// Number of status polls a wait makes before it gives up.
pub const POLL_ATTEMPTS: u32 = 20;

/// Pause between two status polls, in milliseconds.
pub const POLL_INTERVAL_MS: u64 = 50;

/// A flag of the status byte read from the command port.
#[derive(Debug, Clone, Copy, PartialEq, Eq, Structural)]
pub enum EcFlag {
    /// The EC has placed a result byte in the data port.
    OutputBufferFull,
    /// The EC has not yet consumed the last byte written to it.
    InputBufferFull,
}

impl EcFlag {
    pub open spec fn spec_bit(self) -> u8 {
        match self {
            EcFlag::OutputBufferFull => 0,
            EcFlag::InputBufferFull => 1,
        }
    }

    /// Bit position of the flag in the status byte.
    pub fn bit(self) -> (r: u8)
        ensures
            r == self.spec_bit(),
    {
        match self {
            EcFlag::OutputBufferFull => 0,
            EcFlag::InputBufferFull => 1,
        }
    }
}

/// Whether `flag` is set in `status`: its bit, counted from the least
/// significant one, is 1.
pub open spec fn flag_value(status: u8, flag: EcFlag) -> bool {
    match flag {
        EcFlag::OutputBufferFull => status % 2 == 1,
        EcFlag::InputBufferFull => (status / 2) % 2 == 1,
    }
}

/// Reads one flag out of a status byte.
pub fn read_flag(status: u8, flag: EcFlag) -> (r: bool)
    ensures
        r == flag_value(status, flag),
{
    let r = (status >> flag.bit() & 0x01) == 0x01;
    proof {
        assert(((status >> 0u8) & 1u8 == 1u8) == (status % 2 == 1)) by (bit_vector);
        assert(((status >> 1u8) & 1u8 == 1u8) == ((status / 2) % 2 == 1)) by (bit_vector);
    }
    r
}

/// An opcode written to the command port to start a transaction.
#[derive(Debug, Clone, Copy, PartialEq, Eq, Structural)]
pub enum EcCommand {
    Read,
    Write,
    Query,
}

impl EcCommand {
    pub open spec fn spec_opcode(self) -> u8 {
        match self {
            EcCommand::Read => 0x80,
            EcCommand::Write => 0x81,
            EcCommand::Query => 0x84,
        }
    }

    pub fn opcode(self) -> (r: u8)
        ensures
            r == self.spec_opcode(),
    {
        match self {
            EcCommand::Read => 0x80,
            EcCommand::Write => 0x81,
            EcCommand::Query => 0x84,
        }
    }
}

/// Errors of the port grant and of the handshakes.
#[derive(Debug, Clone, Copy, PartialEq, Eq, Structural)]
pub enum EmbeddedControllerError {
    /// The operating system refused access to a port; its status code.
    IoPerm(i32),
    /// A handshake wait used up its polling budget.
    Timeout,
}

/// One of the two fixed I/O ports of the EC.
#[derive(Debug, Clone, Copy, PartialEq, Eq, Structural)]
pub enum EcPort {
    /// Command port on write, status port on read.
    Command,
    /// Data port.
    Data,
}

impl EcPort {
    pub open spec fn spec_address(self) -> u16 {
        match self {
            EcPort::Command => 0x66,
            EcPort::Data => 0x62,
        }
    }

    /// The port's I/O address.
    pub fn address(self) -> (r: u16)
        ensures
            r == self.spec_address(),
    {
        match self {
            EcPort::Command => 0x66,
            EcPort::Data => 0x62,
        }
    }

    /// Turns the status of the operating system's grant request for this
    /// port (one byte wide) into a handle: 0 is success, anything else is
    /// handed back as `IoPerm`.
    pub fn open(self, status: i32) -> (r: Result<PortHandle, EmbeddedControllerError>)
        ensures
            status == 0 <==> r is Ok,
            r matches Ok(h) ==> h.spec_port() == self,
            status != 0 ==> r == Err::<PortHandle, EmbeddedControllerError>(
                EmbeddedControllerError::IoPerm(status),
            ),
    {
        if status != 0 {
            Err(EmbeddedControllerError::IoPerm(status))
        } else {
            Ok(PortHandle { port: self })
        }
    }
}

/// A port that the operating system has granted access to.
#[derive(Debug, Clone, Copy, PartialEq, Eq, Structural)]
pub struct PortHandle {
    port: EcPort,
}

impl PortHandle {
    pub closed spec fn spec_port(self) -> EcPort {
        self.port
    }

    pub fn port(&self) -> (r: EcPort)
        ensures
            r == self.spec_port(),
    {
        self.port
    }
}

/// The controller: the two granted ports and the transaction in progress.
/// It is not `Clone`, so one owner drives one transaction at a time.
pub struct EmbeddedController {
    command: PortHandle,
    data: PortHandle,
    script: Vec<Step>,
    pc: usize,
    polls: u32,
    phase: Phase,
    fetched: Option<u8>,
}

impl View for EmbeddedController {
    type V = TransactionView;

    closed spec fn view(&self) -> TransactionView {
        TransactionView {
            script: self.script@,
            pc: self.pc as nat,
            polls: self.polls as nat,
            phase: self.phase,
            fetched: self.fetched,
        }
    }
}

impl EmbeddedController {
    /// The command and data handles hold the ports their names say.
    pub closed spec fn ports_wf(&self) -> bool {
        &&& self.command.spec_port() == EcPort::Command
        &&& self.data.spec_port() == EcPort::Data
    }

    /// The ports are the right ones and the transaction state is consistent.
    pub open spec fn wf(&self) -> bool {
        &&& self.ports_wf()
        &&& self@.wf()
    }

    /// A controller over the two granted ports, with no transaction running.
    pub fn new(command: PortHandle, data: PortHandle) -> (r: Self)
        requires
            command.spec_port() == EcPort::Command,
            data.spec_port() == EcPort::Data,
        ensures
            r.wf(),
            r@.phase == Phase::Idle,
            r@.script.len() == 0,
            r@.pc == 0,
            r@.polls == 0,
            r@.fetched is None,
    {
        EmbeddedController {
            command,
            data,
            script: Vec::new(),
            pc: 0,
            polls: 0,
            phase: Phase::Idle,
            fetched: None,
        }
    }

    /// Whether a transaction is running.
    pub fn is_busy(&self) -> (r: bool)
        ensures
            r == (self@.phase != Phase::Idle),
    {
        self.phase != Phase::Idle
    }

    /// The command/status port.
    pub fn command_port(&self) -> (r: EcPort)
        requires
            self.wf(),
        ensures
            r == EcPort::Command,
    {
        self.command.port()
    }

    /// The data port.
    pub fn data_port(&self) -> (r: EcPort)
        requires
            self.wf(),
        ensures
            r == EcPort::Data,
    {
        self.data.port()
    }

    /// Starts the step at `pc`.
    fn enter_step(&mut self) -> (r: Action)
        requires
            old(self).pc <= old(self).script@.len(),
        ensures
            (final(self)@, r) == enter(old(self)@.script, old(self)@.pc, old(self)@.fetched),
            final(self).command == old(self).command,
            final(self).data == old(self).data,
    {
        self.polls = 0;
        if self.pc >= self.script.len() {
            self.phase = Phase::Idle;
            return Action::Done(self.fetched);
        }
        self.phase = Phase::Issued;
        match self.script[self.pc] {
            Step::Await { .. } => {
                self.phase = Phase::Polling;
                Action::ReadStatus
            },
            Step::Command(c) => Action::WriteCommand(c.opcode()),
            Step::Data(b) => Action::WriteData(b),
            Step::Fetch => Action::ReadData,
            Step::Discard => Action::ReadData,
        }
    }

    /// Starts a transaction that runs `script` from its first step.
    fn start(&mut self, script: Vec<Step>) -> (r: Action)
        ensures
            (final(self)@, r) == enter(script@, 0, None),
            final(self).command == old(self).command,
            final(self).data == old(self).data,
    {
        self.script = script;
        self.pc = 0;
        self.fetched = None;
        self.enter_step()
    }

    /// Starts reading `register`: the returned action is the first one of
    /// the read handshake, and `resume` gives the others.
    pub fn read(&mut self, register: u8) -> (r: Action)
        requires
            old(self).wf(),
        ensures
            final(self).wf(),
            (final(self)@, r) == enter(read_script(register), 0, None),
            final(self)@.script == read_script(register),
    {
        let script = vec![
            Step::Await { flag: EcFlag::InputBufferFull, value: false, required: true },
            Step::Command(EcCommand::Read),
            Step::Await { flag: EcFlag::InputBufferFull, value: false, required: true },
            Step::Data(register),
            Step::Await { flag: EcFlag::OutputBufferFull, value: true, required: true },
            Step::Fetch,
        ];
        assert(script@ =~= read_script(register));
        self.start(script)
    }

    /// Starts writing `value` to `register`: the returned action is the
    /// first one of the write handshake, and `resume` gives the others.
    pub fn write(&mut self, register: u8, value: u8) -> (r: Action)
        requires
            old(self).wf(),
        ensures
            final(self).wf(),
            (final(self)@, r) == enter(write_script(register, value), 0, None),
            final(self)@.script == write_script(register, value),
    {
        let script = vec![
            Step::Await { flag: EcFlag::InputBufferFull, value: false, required: true },
            Step::Command(EcCommand::Write),
            Step::Await { flag: EcFlag::InputBufferFull, value: false, required: true },
            Step::Data(register),
            Step::Await { flag: EcFlag::InputBufferFull, value: false, required: true },
            Step::Data(value),
            Step::Await { flag: EcFlag::InputBufferFull, value: false, required: true },
            Step::Await { flag: EcFlag::OutputBufferFull, value: true, required: false },
            Step::Discard,
        ];
        assert(script@ =~= write_script(register, value));
        self.start(script)
    }

    /// Goes on with the running transaction once the host has performed
    /// the last action; `input` is the byte that action read (the status
    /// byte after `ReadStatus`, the data byte after `ReadData`), and is
    /// ignored after the others.
    pub fn resume(&mut self, input: u8) -> (r: Action)
        requires
            old(self).wf(),
            old(self)@.phase != Phase::Idle,
        ensures
            final(self).wf(),
            (final(self)@, r) == next(old(self)@, input),
    {
        let steps: usize = self.script.len();
        assert(self.pc < steps);
        match self.phase {
            Phase::Idle => Action::Done(self.fetched),
            Phase::Polling => match self.script[self.pc] {
                Step::Await { flag, value, required } => {
                    if read_flag(input, flag) == value {
                        self.pc = self.pc + 1;
                        self.enter_step()
                    } else {
                        self.polls = self.polls + 1;
                        self.phase = Phase::Pausing;
                        Action::Pause
                    }
                },
                _ => Action::ReadStatus,
            },
            Phase::Pausing => match self.script[self.pc] {
                Step::Await { flag, value, required } => {
                    if self.polls >= POLL_ATTEMPTS {
                        self.phase = Phase::Idle;
                        if required {
                            Action::Failed(EmbeddedControllerError::Timeout)
                        } else {
                            Action::Done(self.fetched)
                        }
                    } else {
                        self.phase = Phase::Polling;
                        Action::ReadStatus
                    }
                },
                _ => Action::Pause,
            },
            Phase::Issued => {
                if let Step::Fetch = self.script[self.pc] {
                    self.fetched = Some(input);
                }
                self.pc = self.pc + 1;
                self.enter_step()
            },
        }
    }
}

} // verus!
