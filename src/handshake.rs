use vstd::prelude::*;
use crate::ec::{EcCommand, EcFlag, EmbeddedControllerError, flag_value, POLL_ATTEMPTS};

verus! {

/// One step of a transaction script.
#[derive(Debug, Clone, Copy, PartialEq, Eq, Structural)]
pub enum Step {
    /// Poll the status byte until `flag` equals `value`. When the polling
    /// budget runs out, a `required` wait fails the transaction with
    /// `Timeout`; any other wait ends it successfully.
    Await { flag: EcFlag, value: bool, required: bool },
    /// Write an opcode to the command port.
    Command(EcCommand),
    /// Write a byte to the data port.
    Data(u8),
    /// Read a byte from the data port: the transaction's result.
    Fetch,
    /// Read a byte from the data port and drop it.
    Discard,
}

/// What the host does next on behalf of a transaction.
#[derive(Debug, Clone, Copy, PartialEq, Eq, Structural)]
pub enum Action {
    /// Read the status byte from the command port and hand it back.
    ReadStatus,
    /// Sleep for `POLL_INTERVAL_MS`, then resume.
    Pause,
    /// Write this byte to the command port.
    WriteCommand(u8),
    /// Write this byte to the data port.
    WriteData(u8),
    /// Read a byte from the data port and hand it back.
    ReadData,
    /// The transaction succeeded; the fetched byte, if the script fetches one.
    Done(Option<u8>),
    /// The transaction failed.
    Failed(EmbeddedControllerError),
}

impl Action {
    /// Whether the action ends its transaction.
    pub fn is_final(&self) -> (r: bool)
        ensures
            r == (*self is Done || *self is Failed),
    {
        match self {
            Action::Done(_) | Action::Failed(_) => true,
            _ => false,
        }
    }
}

/// Where a transaction stands between two actions.
#[derive(Debug, Clone, Copy, PartialEq, Eq, Structural)]
pub enum Phase {
    /// No transaction is running.
    Idle,
    /// A status read was asked for, at a wait step.
    Polling,
    /// A pause was asked for after a poll that did not match.
    Pausing,
    /// The port operation of the current step was asked for.
    Issued,
}

/// Abstract state of a transaction.
pub struct TransactionView {
    pub script: Seq<Step>,
    pub pc: nat,
    pub polls: nat,
    pub phase: Phase,
    pub fetched: Option<u8>,
}

/// The script of a register read.
pub open spec fn read_script(register: u8) -> Seq<Step> {
    seq![
        Step::Await { flag: EcFlag::InputBufferFull, value: false, required: true },
        Step::Command(EcCommand::Read),
        Step::Await { flag: EcFlag::InputBufferFull, value: false, required: true },
        Step::Data(register),
        Step::Await { flag: EcFlag::OutputBufferFull, value: true, required: true },
        Step::Fetch,
    ]
}

/// The script of a register write; the trailing acknowledgement byte is
/// drained when it comes, and its absence is no failure.
pub open spec fn write_script(register: u8, value: u8) -> Seq<Step> {
    seq![
        Step::Await { flag: EcFlag::InputBufferFull, value: false, required: true },
        Step::Command(EcCommand::Write),
        Step::Await { flag: EcFlag::InputBufferFull, value: false, required: true },
        Step::Data(register),
        Step::Await { flag: EcFlag::InputBufferFull, value: false, required: true },
        Step::Data(value),
        Step::Await { flag: EcFlag::InputBufferFull, value: false, required: true },
        Step::Await { flag: EcFlag::OutputBufferFull, value: true, required: false },
        Step::Discard,
    ]
}

/// State and action on starting step `pc` of `script`.
pub open spec fn enter(script: Seq<Step>, pc: nat, fetched: Option<u8>) -> (TransactionView, Action) {
    let v = TransactionView { script, pc, polls: 0, phase: Phase::Issued, fetched };
    if pc >= script.len() {
        (TransactionView { phase: Phase::Idle, ..v }, Action::Done(fetched))
    } else {
        match script[pc as int] {
            Step::Await { .. } => (TransactionView { phase: Phase::Polling, ..v }, Action::ReadStatus),
            Step::Command(c) => (v, Action::WriteCommand(c.spec_opcode())),
            Step::Data(b) => (v, Action::WriteData(b)),
            Step::Fetch => (v, Action::ReadData),
            Step::Discard => (v, Action::ReadData),
        }
    }
}

/// State and action after the host performed the last action; `input` is
/// the byte that action read, if it read one.
pub open spec fn next(v: TransactionView, input: u8) -> (TransactionView, Action) {
    match v.phase {
        Phase::Idle => (v, Action::Done(v.fetched)),
        Phase::Polling => match v.script[v.pc as int] {
            Step::Await { flag, value, required } => if flag_value(input, flag) == value {
                enter(v.script, v.pc + 1, v.fetched)
            } else {
                (TransactionView { polls: v.polls + 1, phase: Phase::Pausing, ..v }, Action::Pause)
            },
            _ => (v, Action::ReadStatus),
        },
        Phase::Pausing => match v.script[v.pc as int] {
            Step::Await { flag, value, required } => if v.polls >= POLL_ATTEMPTS {
                if required {
                    (
                        TransactionView { phase: Phase::Idle, ..v },
                        Action::Failed(EmbeddedControllerError::Timeout),
                    )
                } else {
                    (TransactionView { phase: Phase::Idle, ..v }, Action::Done(v.fetched))
                }
            } else {
                (TransactionView { phase: Phase::Polling, ..v }, Action::ReadStatus)
            },
            _ => (v, Action::Pause),
        },
        Phase::Issued => {
            let fetched = if v.script[v.pc as int] is Fetch {
                Some(input)
            } else {
                v.fetched
            };
            enter(v.script, v.pc + 1, fetched)
        },
    }
}

impl TransactionView {
    /// The phase agrees with the step it stands at, and the poll count with
    /// the budget.
    pub open spec fn wf(self) -> bool {
        &&& self.pc <= self.script.len()
        &&& self.polls <= POLL_ATTEMPTS
        &&& match self.phase {
            Phase::Idle => true,
            Phase::Polling => self.pc < self.script.len() && self.script[self.pc as int] is Await
                && self.polls < POLL_ATTEMPTS,
            Phase::Pausing => self.pc < self.script.len() && self.script[self.pc as int] is Await
                && 1 <= self.polls,
            Phase::Issued => self.pc < self.script.len() && !(self.script[self.pc as int] is Await),
        }
    }
}

/// A bound on the number of actions a transaction still asks for: each
/// call of `next` on a running transaction lowers it.
pub open spec fn remaining(v: TransactionView) -> nat {
    if v.phase == Phase::Idle {
        0
    } else {
        let steps = (v.script.len() - v.pc) * 64;
        let local = match v.phase {
            Phase::Polling => 2 * (POLL_ATTEMPTS - v.polls) + 1,
            Phase::Pausing => 2 * (POLL_ATTEMPTS - v.polls) + 2,
            _ => 1,
        };
        (steps + local) as nat
    }
}

/// Each action of a running transaction brings it closer to its end, and it
/// has ended exactly when the action is `Done` or `Failed`.
pub proof fn lemma_next_progress(v: TransactionView, input: u8)
    requires
        v.wf(),
        v.phase != Phase::Idle,
    ensures
        ({
            let (w, a) = next(v, input);
            &&& w.wf()
            &&& w.script == v.script
            &&& remaining(w) < remaining(v)
            &&& (w.phase == Phase::Idle <==> (a is Done || a is Failed))
        }),
{
}

/// Whether `step` is a wait whose `required` flag is `required`.
pub open spec fn waits_for(step: Step, required: bool) -> bool {
    match step {
        Step::Await { required: r, .. } => r == required,
        _ => false,
    }
}

/// A transaction runs its script in order: each call of `next` keeps it at
/// its step or moves it to the following one, every port access it asks for
/// is the one the script holds where it then stands, and it ends only past
/// the last step or on a wait that used up its budget.
pub proof fn lemma_script_order(v: TransactionView, input: u8)
    requires
        v.wf(),
        v.phase != Phase::Idle,
    ensures
        ({
            let (w, a) = next(v, input);
            &&& w.pc == v.pc || w.pc == v.pc + 1
            &&& a matches Action::WriteCommand(b) ==> (w.script[w.pc as int] matches Step::Command(
                c,
            ) && c.spec_opcode() == b)
            &&& a matches Action::WriteData(b) ==> w.script[w.pc as int] == Step::Data(b)
            &&& a is ReadData ==> w.script[w.pc as int] is Fetch || w.script[w.pc as int] is Discard
            &&& a is ReadStatus ==> w.script[w.pc as int] is Await
            &&& a is Pause ==> w.script[w.pc as int] is Await
            &&& a is Done ==> w.pc == w.script.len() || (w.polls == POLL_ATTEMPTS && waits_for(
                w.script[w.pc as int],
                false,
            ))
            &&& a is Failed ==> (a == Action::Failed(EmbeddedControllerError::Timeout) && w.polls
                == POLL_ATTEMPTS && waits_for(w.script[w.pc as int], true))
        }),
{
}

/// Index of the first status byte of `statuses` in which `flag` equals
/// `value`, or the length of `statuses` when there is none.
pub open spec fn first_match(statuses: Seq<u8>, flag: EcFlag, value: bool) -> nat
    decreases statuses.len(),
{
    if statuses.len() == 0 {
        0
    } else if flag_value(statuses[0], flag) == value {
        0
    } else {
        1 + first_match(statuses.drop_first(), flag, value)
    }
}

/// Drives a transaction that stands at a wait: the status bytes of
/// `statuses` answer its status reads in turn, and each pause is answered
/// at once. Gives the state and the action where the run leaves the wait
/// (or runs out of statuses), and the number of status bytes consumed.
pub open spec fn poll_run(v: TransactionView, statuses: Seq<u8>) -> (TransactionView, Action, nat)
    decreases statuses.len(),
{
    if statuses.len() == 0 {
        (v, Action::ReadStatus, 0)
    } else {
        let (v1, a1) = next(v, statuses[0]);
        if a1 == Action::Pause {
            let (v2, a2) = next(v1, 0);
            if a2 == Action::ReadStatus {
                let (w, a, n) = poll_run(v2, statuses.drop_first());
                (w, a, n + 1)
            } else {
                (v2, a2, 1)
            }
        } else {
            (v1, a1, 1)
        }
    }
}

proof fn lemma_poll_run_from(
    v: TransactionView,
    flag: EcFlag,
    value: bool,
    required: bool,
    statuses: Seq<u8>,
)
    requires
        v.wf(),
        v.phase == Phase::Polling,
        v.script[v.pc as int] == (Step::Await { flag, value, required }),
        statuses.len() + v.polls >= POLL_ATTEMPTS,
    ensures
        ({
            let (w, a, n) = poll_run(v, statuses);
            let j = first_match(statuses, flag, value);
            &&& j + v.polls < POLL_ATTEMPTS ==> n == j + 1 && (w, a) == enter(
                v.script,
                v.pc + 1,
                v.fetched,
            )
            &&& j + v.polls >= POLL_ATTEMPTS ==> {
                &&& n + v.polls == POLL_ATTEMPTS
                &&& w.phase == Phase::Idle
                &&& a == if required {
                    Action::Failed(EmbeddedControllerError::Timeout)
                } else {
                    Action::Done(v.fetched)
                }
            }
        }),
    decreases statuses.len(),
{
    if flag_value(statuses[0], flag) != value {
        let (v1, a1) = next(v, statuses[0]);
        let (v2, a2) = next(v1, 0);
        if v.polls + 1 < POLL_ATTEMPTS {
            lemma_poll_run_from(v2, flag, value, required, statuses.drop_first());
        }
    }
}

/// A wait polls the status byte at most `POLL_ATTEMPTS` times. When the
/// flag reaches the target value at some poll within that budget, the wait
/// ends on exactly that poll and the transaction moves on to its next step;
/// when it never does, the wait ends after the whole budget with `Timeout`
/// (or, for a wait that is not required, with success).
pub proof fn lemma_wait_is_bounded(
    v: TransactionView,
    flag: EcFlag,
    value: bool,
    required: bool,
    statuses: Seq<u8>,
)
    requires
        v.wf(),
        v.phase == Phase::Polling,
        v.polls == 0,
        v.script[v.pc as int] == (Step::Await { flag, value, required }),
        statuses.len() >= POLL_ATTEMPTS,
    ensures
        ({
            let (w, a, n) = poll_run(v, statuses);
            let j = first_match(statuses, flag, value);
            &&& n <= POLL_ATTEMPTS
            &&& j < POLL_ATTEMPTS ==> n == j + 1 && (w, a) == enter(v.script, v.pc + 1, v.fetched)
            &&& j >= POLL_ATTEMPTS ==> {
                &&& n == POLL_ATTEMPTS
                &&& w.phase == Phase::Idle
                &&& a == if required {
                    Action::Failed(EmbeddedControllerError::Timeout)
                } else {
                    Action::Done(v.fetched)
                }
            }
        }),
{
    lemma_poll_run_from(v, flag, value, required, statuses);
}

/// A write whose acknowledgement byte never shows still succeeds: once the
/// register address and the value have been taken, the wait for the
/// acknowledgement ends the transaction with success after its budget.
pub proof fn lemma_write_ack_is_optional(
    v: TransactionView,
    register: u8,
    value: u8,
    statuses: Seq<u8>,
)
    requires
        v.wf(),
        v.script == write_script(register, value),
        v.pc == 7,
        v.phase == Phase::Polling,
        v.polls == 0,
        statuses.len() >= POLL_ATTEMPTS,
        first_match(statuses, EcFlag::OutputBufferFull, true) >= POLL_ATTEMPTS,
    ensures
        poll_run(v, statuses).1 == Action::Done(v.fetched),
{
    lemma_wait_is_bounded(v, EcFlag::OutputBufferFull, true, false, statuses);
}

} // verus!
