use vstd::prelude::*;
use crate::ec::EmbeddedController;
use crate::handshake::{
    Action, Phase, TransactionView, enter, lemma_next_progress, next, read_script, remaining,
    write_script,
};

verus! {

/// Byte that the simulated EC echoes after a register write.
pub const ACK_BYTE: u8 = 0xFA;

/// Where the simulated EC stands in a handshake.
#[derive(Debug, Clone, Copy, PartialEq, Eq, Structural)]
pub enum SimMode {
    /// Waiting for an opcode.
    Idle,
    /// Read opcode received; the register address comes next.
    ReadAddress,
    /// Write opcode received; the register address comes next.
    WriteAddress,
    /// Write opcode and this register address received; the value comes next.
    WriteValue(u8),
}

/// Abstract state of an in-memory EC that honours the handshake at once:
/// it consumes every byte as soon as it is written, so Input-Buffer-Full
/// never shows, and Output-Buffer-Full shows while a result byte waits.
pub struct SimState {
    pub registers: Seq<u8>,
    pub mode: SimMode,
    pub output: Option<u8>,
}

impl SimState {
    /// 256 registers, no handshake under way, no byte waiting.
    pub open spec fn ready(self) -> bool {
        &&& self.registers.len() == 256
        &&& self.mode == SimMode::Idle
        &&& self.output is None
    }
}

/// The status byte the simulated EC shows.
pub open spec fn sim_status(s: SimState) -> u8 {
    if s.output is Some {
        1
    } else {
        0
    }
}

/// The simulated EC after the host performs `a`, and the byte the host
/// reads (0 for actions that read nothing).
pub open spec fn sim_perform(s: SimState, a: Action) -> (SimState, u8) {
    match a {
        Action::ReadStatus => (s, sim_status(s)),
        Action::WriteCommand(b) => (
            SimState {
                mode: if b == 0x80 {
                    SimMode::ReadAddress
                } else if b == 0x81 {
                    SimMode::WriteAddress
                } else {
                    SimMode::Idle
                },
                ..s
            },
            0,
        ),
        Action::WriteData(b) => match s.mode {
            SimMode::Idle => (s, 0),
            SimMode::ReadAddress => (
                SimState { mode: SimMode::Idle, output: Some(s.registers[b as int]), ..s },
                0,
            ),
            SimMode::WriteAddress => (SimState { mode: SimMode::WriteValue(b), ..s }, 0),
            SimMode::WriteValue(r) => (
                SimState {
                    registers: s.registers.update(r as int, b),
                    mode: SimMode::Idle,
                    output: Some(ACK_BYTE),
                },
                0,
            ),
        },
        Action::ReadData => (
            SimState { output: None, ..s },
            match s.output {
                Some(b) => b,
                None => 0,
            },
        ),
        _ => (s, 0),
    }
}

/// Runs a transaction against the simulated EC for at most `fuel` actions,
/// starting from action `a`; stops at `Done` or `Failed`.
pub open spec fn drive(v: TransactionView, s: SimState, a: Action, fuel: nat) -> (
    TransactionView,
    SimState,
    Action,
)
    decreases fuel,
{
    if fuel == 0 || a is Done || a is Failed {
        (v, s, a)
    } else {
        let (s1, input) = sim_perform(s, a);
        let (v1, a1) = next(v, input);
        drive(v1, s1, a1, (fuel - 1) as nat)
    }
}

/// An in-memory EC that honours the handshake at once (see `SimState`).
pub struct SimulatedEc {
    registers: Vec<u8>,
    mode: SimMode,
    output: Option<u8>,
}

impl View for SimulatedEc {
    type V = SimState;

    closed spec fn view(&self) -> SimState {
        SimState { registers: self.registers@, mode: self.mode, output: self.output }
    }
}

impl SimulatedEc {
    /// An EC whose 256 registers all hold 0.
    pub fn new() -> (r: Self)
        ensures
            r@.ready(),
            forall|i: int| 0 <= i < 256 ==> r@.registers[i] == 0,
    {
        let mut registers: Vec<u8> = Vec::new();
        let mut i: usize = 0;
        while i < 256
            invariant
                i <= 256,
                registers@.len() == i,
                forall|j: int| 0 <= j < i ==> registers@[j] == 0,
            decreases 256 - i,
        {
            registers.push(0);
            i = i + 1;
        }
        SimulatedEc { registers, mode: SimMode::Idle, output: None }
    }

    /// The value of a register.
    pub fn register(&self, index: u8) -> (r: u8)
        requires
            self@.registers.len() == 256,
        ensures
            r == self@.registers[index as int],
    {
        self.registers[index as usize]
    }

    /// Performs one action of the host on this EC and gives the byte the
    /// host reads (0 for actions that read nothing).
    pub fn perform(&mut self, a: Action) -> (r: u8)
        requires
            old(self)@.registers.len() == 256,
        ensures
            (final(self)@, r) == sim_perform(old(self)@, a),
    {
        match a {
            Action::ReadStatus => {
                if self.output.is_some() {
                    1
                } else {
                    0
                }
            },
            Action::WriteCommand(b) => {
                self.mode = if b == 0x80 {
                    SimMode::ReadAddress
                } else if b == 0x81 {
                    SimMode::WriteAddress
                } else {
                    SimMode::Idle
                };
                0
            },
            Action::WriteData(b) => {
                match self.mode {
                    SimMode::Idle => {},
                    SimMode::ReadAddress => {
                        self.output = Some(self.registers[b as usize]);
                        self.mode = SimMode::Idle;
                    },
                    SimMode::WriteAddress => {
                        self.mode = SimMode::WriteValue(b);
                    },
                    SimMode::WriteValue(r) => {
                        self.registers.set(r as usize, b);
                        self.output = Some(ACK_BYTE);
                        self.mode = SimMode::Idle;
                    },
                }
                0
            },
            Action::ReadData => {
                let b = match self.output {
                    Some(b) => b,
                    None => 0,
                };
                self.output = None;
                b
            },
            _ => 0,
        }
    }
}

/// Performs the actions of a transaction on the simulated EC, from `first`
/// on, until the transaction ends; gives its last action.
pub fn run_transaction(
    ctl: &mut EmbeddedController,
    sim: &mut SimulatedEc,
    first: Action,
) -> (r: Action)
    requires
        old(ctl).wf(),
        old(sim)@.registers.len() == 256,
        old(ctl)@.phase == Phase::Idle <==> (first is Done || first is Failed),
    ensures
        final(ctl).wf(),
        final(sim)@.registers.len() == 256,
        r is Done || r is Failed,
        exists|fuel: nat|
            drive(old(ctl)@, old(sim)@, first, fuel) == (final(ctl)@, final(sim)@, r),
{
    let ghost v0 = ctl@;
    let ghost s0 = sim@;
    let ghost mut k: nat = 0;
    let mut a = first;
    while !a.is_final()
        invariant
            ctl.wf(),
            sim@.registers.len() == 256,
            ctl@.phase == Phase::Idle <==> (a is Done || a is Failed),
            forall|f: nat| #[trigger]
                drive(v0, s0, first, k + f) == drive(ctl@, sim@, a, f),
        decreases remaining(ctl@),
    {
        let ghost v = ctl@;
        let ghost s = sim@;
        let ghost prev = a;
        let input = sim.perform(a);
        proof {
            lemma_next_progress(v, input);
        }
        a = ctl.resume(input);
        proof {
            assert forall|f: nat| #[trigger]
                drive(v0, s0, first, (k + 1) + f) == drive(ctl@, sim@, a, f) by {
                assert(drive(v0, s0, first, k + (f + 1)) == drive(v, s, prev, f + 1));
                assert((k + 1) + f == k + (f + 1));
            }
            k = k + 1;
        }
    }
    proof {
        assert(drive(v0, s0, first, k + 0) == drive(ctl@, sim@, a, 0));
    }
    a
}

/// A register read against the simulated EC returns the register's value
/// and leaves the EC as it found it.
pub proof fn lemma_read_register(s: SimState, register: u8)
    requires
        s.ready(),
    ensures
        ({
            let (v0, a0) = enter(read_script(register), 0, None);
            let (v, t, a) = drive(v0, s, a0, 6);
            &&& a == Action::Done(Some(s.registers[register as int]))
            &&& t == s
        }),
{
    let (v0, a0) = enter(read_script(register), 0, None);
    assert(a0 == Action::ReadStatus);
    let (s1, i1) = sim_perform(s, a0);
    let (v1, a1) = next(v0, i1);
    assert(a1 == Action::WriteCommand(0x80));
    let (s2, i2) = sim_perform(s1, a1);
    let (v2, a2) = next(v1, i2);
    assert(a2 == Action::ReadStatus);
    let (s3, i3) = sim_perform(s2, a2);
    let (v3, a3) = next(v2, i3);
    assert(a3 == Action::WriteData(register));
    let (s4, i4) = sim_perform(s3, a3);
    let (v4, a4) = next(v3, i4);
    assert(s4.output == Some(s.registers[register as int]));
    assert(a4 == Action::ReadStatus);
    let (s5, i5) = sim_perform(s4, a4);
    let (v5, a5) = next(v4, i5);
    assert(a5 == Action::ReadData);
    let (s6, i6) = sim_perform(s5, a5);
    let (v6, a6) = next(v5, i6);
    assert(a6 == Action::Done(Some(s.registers[register as int])));
    assert(s6 == s);
    reveal_with_fuel(drive, 7);
}

/// A register write against the simulated EC succeeds and stores the
/// value, leaving every other register as it was.
pub proof fn lemma_write_register(s: SimState, register: u8, value: u8)
    requires
        s.ready(),
    ensures
        ({
            let (v0, a0) = enter(write_script(register, value), 0, None);
            let (v, t, a) = drive(v0, s, a0, 9);
            &&& a == Action::Done(None)
            &&& t == SimState {
                registers: s.registers.update(register as int, value),
                mode: SimMode::Idle,
                output: None,
            }
        }),
{
    let (v0, a0) = enter(write_script(register, value), 0, None);
    assert(a0 == Action::ReadStatus);
    let (s1, i1) = sim_perform(s, a0);
    let (v1, a1) = next(v0, i1);
    assert(a1 == Action::WriteCommand(0x81));
    let (s2, i2) = sim_perform(s1, a1);
    let (v2, a2) = next(v1, i2);
    assert(a2 == Action::ReadStatus);
    let (s3, i3) = sim_perform(s2, a2);
    let (v3, a3) = next(v2, i3);
    assert(a3 == Action::WriteData(register));
    let (s4, i4) = sim_perform(s3, a3);
    let (v4, a4) = next(v3, i4);
    assert(a4 == Action::ReadStatus);
    let (s5, i5) = sim_perform(s4, a4);
    let (v5, a5) = next(v4, i5);
    assert(a5 == Action::WriteData(value));
    let (s6, i6) = sim_perform(s5, a5);
    let (v6, a6) = next(v5, i6);
    assert(s6.output == Some(ACK_BYTE));
    assert(a6 == Action::ReadStatus);
    let (s7, i7) = sim_perform(s6, a6);
    let (v7, a7) = next(v6, i7);
    assert(a7 == Action::ReadStatus);
    let (s8, i8) = sim_perform(s7, a7);
    let (v8, a8) = next(v7, i8);
    assert(a8 == Action::ReadData);
    let (s9, i9) = sim_perform(s8, a8);
    let (v9, a9) = next(v8, i9);
    assert(a9 == Action::Done(None));
    reveal_with_fuel(drive, 10);
}

/// Once a run has ended, more fuel changes nothing: two runs from one start
/// that both end give the same result.
proof fn lemma_drive_settled(v: TransactionView, s: SimState, a: Action, f1: nat, f2: nat)
    requires
        drive(v, s, a, f1).2 is Done || drive(v, s, a, f1).2 is Failed,
        drive(v, s, a, f2).2 is Done || drive(v, s, a, f2).2 is Failed,
    ensures
        drive(v, s, a, f1) == drive(v, s, a, f2),
    decreases f1,
{
    if f1 > 0 && f2 > 0 && !(a is Done || a is Failed) {
        let (s1, input) = sim_perform(s, a);
        let (v1, a1) = next(v, input);
        lemma_drive_settled(v1, s1, a1, (f1 - 1) as nat, (f2 - 1) as nat);
    }
}

/// Writing a value to a register and then reading that register back from
/// an EC that honours the handshake gives the value written, however long
/// each run is let go on once it has ended.
pub proof fn lemma_write_then_read(
    s: SimState,
    register: u8,
    value: u8,
    write_fuel: nat,
    read_fuel: nat,
)
    requires
        s.ready(),
        ({
            let (w0, b0) = enter(write_script(register, value), 0, None);
            let (w, t, b) = drive(w0, s, b0, write_fuel);
            let (v0, a0) = enter(read_script(register), 0, None);
            let (v, u, a) = drive(v0, t, a0, read_fuel);
            &&& (b is Done || b is Failed)
            &&& (a is Done || a is Failed)
        }),
    ensures
        ({
            let (w0, b0) = enter(write_script(register, value), 0, None);
            let (w, t, b) = drive(w0, s, b0, write_fuel);
            let (v0, a0) = enter(read_script(register), 0, None);
            let (v, u, a) = drive(v0, t, a0, read_fuel);
            &&& b == Action::Done(None)
            &&& a == Action::Done(Some(value))
        }),
{
    lemma_write_register(s, register, value);
    let (w0, b0) = enter(write_script(register, value), 0, None);
    lemma_drive_settled(w0, s, b0, write_fuel, 9);
    let (w, t, b) = drive(w0, s, b0, write_fuel);
    lemma_read_register(t, register);
    let (v0, a0) = enter(read_script(register), 0, None);
    lemma_drive_settled(v0, t, a0, read_fuel, 6);
}

/// Two reads of one register with no write between them, from an EC that
/// honours the handshake, both succeed and give the same value.
pub proof fn lemma_reads_agree(s: SimState, register: u8, first_fuel: nat, second_fuel: nat)
    requires
        s.ready(),
        ({
            let (v0, a0) = enter(read_script(register), 0, None);
            let (v, t, a) = drive(v0, s, a0, first_fuel);
            let (w, u, b) = drive(v0, t, a0, second_fuel);
            &&& (a is Done || a is Failed)
            &&& (b is Done || b is Failed)
        }),
    ensures
        ({
            let (v0, a0) = enter(read_script(register), 0, None);
            let (v, t, a) = drive(v0, s, a0, first_fuel);
            let (w, u, b) = drive(v0, t, a0, second_fuel);
            &&& a is Done
            &&& a == b
        }),
{
    lemma_read_register(s, register);
    let (v0, a0) = enter(read_script(register), 0, None);
    lemma_drive_settled(v0, s, a0, first_fuel, 6);
    let (v, t, a) = drive(v0, s, a0, first_fuel);
    lemma_drive_settled(v0, t, a0, second_fuel, 6);
}

} // verus!
