//! The write-enable, issue and poll handshake as a state machine.
//!
//! A [`Machine`] is an operation in flight. It always waits for the answer to
//! one [`Action`]; [`Machine::advance`] takes that answer as an [`Event`] and
//! returns the [`Progress`] made: the next machine, or the outcome. The
//! machine never touches the bus, so the same transitions serve a caller that
//! blocks and one that suspends between polls ([`Wait`]).

use vstd::prelude::*;

use crate::{frame, Command, Error};

verus! {

/// Bit of status register 1 that is set while a program or erase is running.
pub const STATUS_BUSY: u8 = 0x01;

/// Bit of status register 1 that shows the write-enable latch.
pub const STATUS_WRITE_ENABLED: u8 = 0x02;

/// Length of the chip's unique identifier in bytes.
pub const UNIQUE_ID_LEN: usize = 8;

/// How an operation waits while the chip is busy.
#[derive(Debug, Clone, Copy, PartialEq, Eq, Structural)]
pub enum Wait {
    /// Ask for the status again at once.
    Spin,
    /// Give up control first, and ask again when resumed.
    Yield,
}

/// The two auxiliary lines of the chip.
#[derive(Debug, Clone, Copy, PartialEq, Eq, Structural)]
pub enum Pin {
    Hold,
    WriteProtect,
}

/// A logic level of a pin. Both lines are inactive when high.
#[derive(Debug, Clone, Copy, PartialEq, Eq, Structural)]
pub enum Level {
    Low,
    High,
}

/// What the owner of the bus is asked to do next.
#[derive(Debug, PartialEq, Eq)]
pub enum Action {
    /// One exchange under chip select: send `out`, then read `read_len` bytes.
    Exchange { out: Vec<u8>, read_len: usize },
    /// Hand control to the scheduler and report back when resumed.
    Yield,
    /// Drive a pin to a level.
    SetPin { pin: Pin, level: Level },
}

/// An [`Action`] as contracts see it.
pub enum ActionView {
    Exchange { out: Seq<u8>, read_len: nat },
    Yield,
    SetPin { pin: Pin, level: Level },
}

impl View for Action {
    type V = ActionView;

    open spec fn view(&self) -> ActionView {
        match *self {
            Action::Exchange { out, read_len } => ActionView::Exchange {
                out: out@,
                read_len: read_len as nat,
            },
            Action::Yield => ActionView::Yield,
            Action::SetPin { pin, level } => ActionView::SetPin { pin, level },
        }
    }
}

/// What happened to the action that a machine asked for.
#[derive(Debug, PartialEq, Eq)]
pub enum Event<S, P> {
    /// It was carried out. The bytes are those that an exchange read; they
    /// are empty for anything else.
    Completed(Vec<u8>),
    /// The transport failed.
    SpiFailed(S),
    /// The pin could not be driven.
    PinFailed(P),
}

/// An [`Event`] as contracts see it.
pub enum EventView<S, P> {
    Completed(Seq<u8>),
    SpiFailed(S),
    PinFailed(P),
}

impl<S, P> View for Event<S, P> {
    type V = EventView<S, P>;

    open spec fn view(&self) -> EventView<S, P> {
        match *self {
            Event::Completed(bytes) => EventView::Completed(bytes@),
            Event::SpiFailed(error) => EventView::SpiFailed(error),
            Event::PinFailed(error) => EventView::PinFailed(error),
        }
    }
}

/// What a program with verification reads back, and what it expects there.
pub struct ReadbackView {
    pub address: u32,
    pub data: Seq<u8>,
}

/// A program or erase that has passed validation.
pub struct JobView {
    /// The bytes of the exchange that starts the operation on the chip.
    pub frame: Seq<u8>,
    /// Set where the written range is read back and compared.
    pub readback: Option<ReadbackView>,
    /// How the operation waits while the chip is busy.
    pub wait: Wait,
}

/// A [`Machine`] as contracts see it: the action that it waits for, and what
/// it needs to go on from there.
pub enum MachineView {
    /// The write-enable command is on its way.
    WriteEnableSent(JobView),
    /// The status was asked for, to see the write-enable latch.
    LatchQueried(JobView),
    /// The program or erase command is on its way.
    CommandIssued(JobView),
    /// The status was asked for, to see whether the chip is still busy.
    Polling(JobView),
    /// The chip was busy, and control was handed to the scheduler.
    Suspended(JobView),
    /// The written range is being read back.
    Verifying(ReadbackView),
    /// The exchange that ends the operation is on its way. What it reads is
    /// the operation's result.
    Exchanging { out: Seq<u8>, read_len: nat },
    /// The first half of a reset is on its way.
    ResetEnabled,
    /// A pin is being driven; `then` is a pin to drive to the same level
    /// afterwards.
    DrivingPin { pin: Pin, level: Level, then: Option<Pin> },
}

/// How far an operation has come.
#[derive(Debug, PartialEq, Eq)]
pub enum Progress<S, P> {
    /// There is something to do before the operation can go on.
    Pending(Machine),
    /// The operation is over. An exchange that ended it with a read gives
    /// the bytes read; every other success gives no bytes.
    Finished(Result<Vec<u8>, Error<S, P>>),
}

/// A [`Progress`] as contracts see it.
pub enum ProgressView<S, P> {
    Pending(MachineView),
    Finished(Result<Seq<u8>, Error<S, P>>),
}

impl<S, P> View for Progress<S, P> {
    type V = ProgressView<S, P>;

    open spec fn view(&self) -> ProgressView<S, P> {
        match *self {
            Progress::Pending(machine) => ProgressView::Pending(machine@),
            Progress::Finished(Ok(bytes)) => ProgressView::Finished(Ok(bytes@)),
            Progress::Finished(Err(error)) => ProgressView::Finished(Err(error)),
        }
    }
}

/// Whether a status byte has the busy bit set.
pub open spec fn busy_bit(status: u8) -> bool {
    status % 2 == 1
}

/// Whether a status byte has the write-enable latch bit set.
pub open spec fn latch_bit(status: u8) -> bool {
    (status / 2) % 2 == 1
}

/// Whether the answer to a status read leaves the chip busy. Only an answer
/// whose first byte has the busy bit clear ends the wait.
pub open spec fn reports_busy(response: Seq<u8>) -> bool {
    response.len() == 0 || busy_bit(response[0])
}

/// Whether the answer to a status read confirms the write-enable latch.
pub open spec fn confirms_latch(response: Seq<u8>) -> bool {
    response.len() > 0 && latch_bit(response[0])
}

/// The exchange that reads status register 1.
pub open spec fn status_read() -> ActionView {
    ActionView::Exchange { out: seq![Command::ReadStatusRegister1.opcode()], read_len: 1 }
}

/// The exchange that sends a bare opcode.
pub open spec fn bare(command: Command) -> ActionView {
    ActionView::Exchange { out: seq![command.opcode()], read_len: 0 }
}

impl MachineView {
    /// The action that the machine waits for.
    pub open spec fn action(self) -> ActionView {
        match self {
            MachineView::WriteEnableSent(_) => bare(Command::WriteEnable),
            MachineView::LatchQueried(_) => status_read(),
            MachineView::CommandIssued(job) => ActionView::Exchange { out: job.frame, read_len: 0 },
            MachineView::Polling(_) => status_read(),
            MachineView::Suspended(_) => ActionView::Yield,
            MachineView::Verifying(readback) => ActionView::Exchange {
                out: frame(Command::ReadData.opcode(), readback.address),
                read_len: readback.data.len(),
            },
            MachineView::Exchanging { out, read_len } => ActionView::Exchange { out, read_len },
            MachineView::ResetEnabled => bare(Command::EnableReset),
            MachineView::DrivingPin { pin, level, .. } => ActionView::SetPin { pin, level },
        }
    }

    /// Where the machine goes when its action was carried out and `response`
    /// is what an exchange read.
    pub open spec fn completed<S, P>(self, response: Seq<u8>) -> ProgressView<S, P> {
        match self {
            MachineView::WriteEnableSent(job) => ProgressView::Pending(
                MachineView::LatchQueried(job),
            ),
            MachineView::LatchQueried(job) => if confirms_latch(response) {
                ProgressView::Pending(MachineView::CommandIssued(job))
            } else {
                ProgressView::Finished(Err(Error::WriteEnableFail))
            },
            MachineView::CommandIssued(job) => ProgressView::Pending(MachineView::Polling(job)),
            MachineView::Polling(job) => if reports_busy(response) {
                match job.wait {
                    Wait::Spin => ProgressView::Pending(MachineView::Polling(job)),
                    Wait::Yield => ProgressView::Pending(MachineView::Suspended(job)),
                }
            } else {
                match job.readback {
                    Some(readback) => ProgressView::Pending(MachineView::Verifying(readback)),
                    None => ProgressView::Finished(Ok(Seq::empty())),
                }
            },
            MachineView::Suspended(job) => ProgressView::Pending(MachineView::Polling(job)),
            MachineView::Verifying(readback) => if response == readback.data {
                ProgressView::Finished(Ok(Seq::empty()))
            } else {
                ProgressView::Finished(Err(Error::ReadbackFail))
            },
            MachineView::Exchanging { .. } => ProgressView::Finished(Ok(response)),
            MachineView::ResetEnabled => ProgressView::Pending(
                MachineView::Exchanging { out: seq![Command::Reset.opcode()], read_len: 0 },
            ),
            MachineView::DrivingPin { level, then: Some(pin), .. } => ProgressView::Pending(
                MachineView::DrivingPin { pin, level, then: None },
            ),
            MachineView::DrivingPin { then: None, .. } => ProgressView::Finished(
                Ok(Seq::empty()),
            ),
        }
    }

    /// Where the machine goes on an event. A failure of the transport or of
    /// a pin ends the operation wherever it stands.
    pub open spec fn next<S, P>(self, event: EventView<S, P>) -> ProgressView<S, P> {
        match event {
            EventView::Completed(response) => self.completed(response),
            EventView::SpiFailed(error) => ProgressView::Finished(Err(Error::SpiError(error))),
            EventView::PinFailed(error) => ProgressView::Finished(Err(Error::PinError(error))),
        }
    }
}

/// Whether a status byte has the busy bit set.
pub fn is_busy(status: u8) -> (busy: bool)
    ensures
        busy == busy_bit(status),
{
    assert((status & 0x01 != 0) == (status % 2 == 1)) by (bit_vector);
    status & STATUS_BUSY != 0
}

/// Whether a status byte has the write-enable latch bit set.
pub fn is_write_enabled(status: u8) -> (enabled: bool)
    ensures
        enabled == latch_bit(status),
{
    assert((status & 0x02 != 0) == ((status / 2) % 2 == 1)) by (bit_vector);
    status & STATUS_WRITE_ENABLED != 0
}

/// A copy of `bytes`.
pub fn copy_bytes(bytes: &[u8]) -> (copy: Vec<u8>)
    ensures
        copy@ == bytes@,
{
    let mut copy: Vec<u8> = Vec::new();
    let mut i: usize = 0;
    while i < bytes.len()
        invariant
            i <= bytes.len(),
            copy@ == bytes@.take(i as int),
        decreases bytes.len() - i,
    {
        copy.push(bytes[i]);
        i += 1;
        assert(bytes@.take(i as int) =~= bytes@.take(i - 1).push(bytes@[i - 1]));
    }
    assert(bytes@.take(i as int) =~= bytes@);
    copy
}

/// Whether two byte strings are the same.
pub fn same_bytes(left: &[u8], right: &[u8]) -> (same: bool)
    ensures
        same == (left@ == right@),
{
    if left.len() != right.len() {
        return false;
    }
    let mut i: usize = 0;
    while i < left.len()
        invariant
            i <= left.len(),
            left.len() == right.len(),
            left@.take(i as int) == right@.take(i as int),
        decreases left.len() - i,
    {
        if left[i] != right[i] {
            return false;
        }
        i += 1;
        assert(left@.take(i as int) =~= left@.take(i - 1).push(left@[i - 1]));
        assert(right@.take(i as int) =~= right@.take(i - 1).push(right@[i - 1]));
    }
    assert(left@.take(i as int) =~= left@);
    assert(right@.take(i as int) =~= right@);
    true
}

/// What a program with verification reads back, and what it expects there.
#[derive(Debug, PartialEq, Eq)]
struct Readback {
    address: u32,
    data: Vec<u8>,
}

/// A program or erase that has passed validation.
#[derive(Debug, PartialEq, Eq)]
struct Job {
    frame: Vec<u8>,
    readback: Option<Readback>,
    wait: Wait,
}

/// The states of a machine, each named after the action it waits for.
#[derive(Debug, PartialEq, Eq)]
enum State {
    WriteEnableSent(Job),
    LatchQueried(Job),
    CommandIssued(Job),
    Polling(Job),
    Suspended(Job),
    Verifying(Readback),
    Exchanging { out: Vec<u8>, read_len: usize },
    ResetEnabled,
    DrivingPin { pin: Pin, level: Level, then: Option<Pin> },
}

/// An operation in flight.
#[derive(Debug, PartialEq, Eq)]
pub struct Machine {
    state: State,
}

impl Readback {
    spec fn view(&self) -> ReadbackView {
        ReadbackView { address: self.address, data: self.data@ }
    }
}

impl Job {
    spec fn view(&self) -> JobView {
        JobView {
            frame: self.frame@,
            readback: match self.readback {
                Some(readback) => Some(readback.view()),
                None => None,
            },
            wait: self.wait,
        }
    }
}

impl State {
    spec fn view(&self) -> MachineView {
        match *self {
            State::WriteEnableSent(job) => MachineView::WriteEnableSent(job.view()),
            State::LatchQueried(job) => MachineView::LatchQueried(job.view()),
            State::CommandIssued(job) => MachineView::CommandIssued(job.view()),
            State::Polling(job) => MachineView::Polling(job.view()),
            State::Suspended(job) => MachineView::Suspended(job.view()),
            State::Verifying(readback) => MachineView::Verifying(readback.view()),
            State::Exchanging { out, read_len } => MachineView::Exchanging {
                out: out@,
                read_len: read_len as nat,
            },
            State::ResetEnabled => MachineView::ResetEnabled,
            State::DrivingPin { pin, level, then } => MachineView::DrivingPin { pin, level, then },
        }
    }
}

impl View for Machine {
    type V = MachineView;

    closed spec fn view(&self) -> MachineView {
        self.state.view()
    }
}

/// The bytes of a bare opcode.
fn opcode_only(command: Command) -> (out: Vec<u8>)
    ensures
        out@ == seq![command.opcode()],
{
    let mut out: Vec<u8> = Vec::new();
    out.push(command.opcode());
    assert(out@ =~= seq![command.opcode()]);
    out
}

/// An operation that waits in `state`.
fn pending<S, P>(state: State) -> (progress: Progress<S, P>)
    ensures
        progress@ == ProgressView::<S, P>::Pending(state.view()),
{
    Progress::Pending(Machine { state })
}

/// An operation that ended well and has no bytes to give.
fn success<S, P>() -> (progress: Progress<S, P>)
    ensures
        progress@ == ProgressView::<S, P>::Finished(Ok(Seq::empty())),
{
    let bytes: Vec<u8> = Vec::new();
    assert(bytes@ =~= Seq::empty());
    Progress::Finished(Ok(bytes))
}

impl Machine {
    /// A machine that waits for a single exchange, whose read is the
    /// operation's result.
    pub(crate) fn exchanging<S, P>(out: Vec<u8>, read_len: usize) -> (progress: Progress<S, P>)
        ensures
            progress@ == ProgressView::<S, P>::Pending(
                MachineView::Exchanging { out: out@, read_len: read_len as nat },
            ),
    {
        pending(State::Exchanging { out, read_len })
    }

    /// A machine at the start of a program or erase whose command exchange
    /// is `frame`. With `data`, that many bytes are read back from `address`
    /// once the chip is idle, and compared with `data`.
    pub(crate) fn destructive<S, P>(
        frame: Vec<u8>,
        address: u32,
        data: Option<Vec<u8>>,
        wait: Wait,
    ) -> (progress: Progress<S, P>)
        ensures
            progress@ == ProgressView::<S, P>::Pending(
                MachineView::WriteEnableSent(
                    JobView {
                        frame: frame@,
                        readback: match data {
                            Some(data) => Some(ReadbackView { address, data: data@ }),
                            None => None,
                        },
                        wait,
                    },
                ),
            ),
    {
        let readback = match data {
            Some(data) => Some(Readback { address, data }),
            None => None,
        };
        pending(State::WriteEnableSent(Job { frame, readback, wait }))
    }

    /// A machine at the start of a reset.
    pub(crate) fn resetting<S, P>() -> (progress: Progress<S, P>)
        ensures
            progress@ == ProgressView::<S, P>::Pending(MachineView::ResetEnabled),
    {
        pending(State::ResetEnabled)
    }

    /// A machine that drives `pin` to `level`, and `then` to the same level
    /// after it.
    pub(crate) fn driving<S, P>(pin: Pin, level: Level, then: Option<Pin>) -> (progress: Progress<
        S,
        P,
    >)
        ensures
            progress@ == ProgressView::<S, P>::Pending(MachineView::DrivingPin { pin, level, then }),
    {
        pending(State::DrivingPin { pin, level, then })
    }

    /// The action that the machine waits for.
    pub fn action(&self) -> (action: Action)
        ensures
            action@ == self@.action(),
    {
        match &self.state {
            State::WriteEnableSent(_) => Action::Exchange {
                out: opcode_only(Command::WriteEnable),
                read_len: 0,
            },
            State::LatchQueried(_) | State::Polling(_) => Action::Exchange {
                out: opcode_only(Command::ReadStatusRegister1),
                read_len: 1,
            },
            State::CommandIssued(job) => Action::Exchange {
                out: copy_bytes(job.frame.as_slice()),
                read_len: 0,
            },
            State::Suspended(_) => Action::Yield,
            State::Verifying(readback) => Action::Exchange {
                out: crate::encode(Command::ReadData, readback.address),
                read_len: readback.data.len(),
            },
            State::Exchanging { out, read_len } => Action::Exchange {
                out: copy_bytes(out.as_slice()),
                read_len: *read_len,
            },
            State::ResetEnabled => Action::Exchange {
                out: opcode_only(Command::EnableReset),
                read_len: 0,
            },
            State::DrivingPin { pin, level, .. } => Action::SetPin { pin: *pin, level: *level },
        }
    }

    /// Takes what happened to the pending action and says how the operation
    /// goes on.
    pub fn advance<S, P>(self, event: Event<S, P>) -> (progress: Progress<S, P>)
        ensures
            progress@ == self@.next(event@),
    {
        match event {
            Event::SpiFailed(error) => Progress::Finished(Err(Error::SpiError(error))),
            Event::PinFailed(error) => Progress::Finished(Err(Error::PinError(error))),
            Event::Completed(response) => match self.state {
                State::WriteEnableSent(job) => pending(State::LatchQueried(job)),
                State::LatchQueried(job) => {
                    if response.len() > 0 && is_write_enabled(response[0]) {
                        pending(State::CommandIssued(job))
                    } else {
                        Progress::Finished(Err(Error::WriteEnableFail))
                    }
                },
                State::CommandIssued(job) => pending(State::Polling(job)),
                State::Polling(job) => {
                    if response.len() == 0 || is_busy(response[0]) {
                        match job.wait {
                            Wait::Spin => pending(State::Polling(job)),
                            Wait::Yield => pending(State::Suspended(job)),
                        }
                    } else {
                        match job.readback {
                            Some(readback) => pending(State::Verifying(readback)),
                            None => success(),
                        }
                    }
                },
                State::Suspended(job) => pending(State::Polling(job)),
                State::Verifying(readback) => {
                    if same_bytes(response.as_slice(), readback.data.as_slice()) {
                        success()
                    } else {
                        Progress::Finished(Err(Error::ReadbackFail))
                    }
                },
                State::Exchanging { .. } => Progress::Finished(Ok(response)),
                State::ResetEnabled => pending(
                    State::Exchanging { out: opcode_only(Command::Reset), read_len: 0 },
                ),
                State::DrivingPin { level, then: Some(pin), .. } => pending(
                    State::DrivingPin { pin, level, then: None },
                ),
                State::DrivingPin { then: None, .. } => success(),
            },
        }
    }
}

} // verus!
