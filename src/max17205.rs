use vstd::prelude::*;

use crate::bus::{BusOp, I2CError, Transfer, TransferView};
use crate::decode::{le_at, le_u16, le_u64};
use crate::error::ErrorCode;
use crate::registers::{Endpoint, Register};

verus! {

/// Size of the scratch buffer: enough for the widest register read.
pub const BUFFER_LEN: usize = 8;

/// The logical reads a caller can ask of the gauge.
#[derive(Clone, Copy, Debug, PartialEq, Eq, Structural)]
pub enum Operation {
    Status,
    StateOfCharge,
    VoltageAndCurrent,
    CoulombCount,
    UniqueId,
}

/// Where the gauge is in its transaction sequence. Each `SetupRead*` tag
/// waits for the write of a register address, each `Read*` tag for the read
/// of that register's bytes.
#[derive(Clone, Copy, Debug, PartialEq, Eq, Structural)]
pub enum State {
    Idle,
    SetupReadCoulomb,
    ReadCoulomb,
    SetupReadStatus,
    ReadStatus,
    SetupReadSOC,
    ReadSOC,
    SetupReadCap,
    ReadCap,
    SetupReadVolt,
    ReadVolt,
    SetupReadCurrent,
    ReadCurrent,
    SetupReadRomID,
    ReadRomID,
}

/// A decoded result, in the shape the client receives it.
#[derive(Clone, Copy, Debug, PartialEq, Eq, Structural)]
pub enum Reading {
    Status { status: u16 },
    StateOfCharge { percent: u16, capacity: u16, full_capacity: u16 },
    VoltageCurrent { voltage: u16, current: u16 },
    Coulomb { coulomb: u16 },
    RomId { rid: u64 },
}

/// What follows the completion of a bus transaction.
#[derive(Debug)]
pub enum Completion {
    /// The operation goes on: issue this transaction (the buffer goes with it).
    Next(Transfer),
    /// The operation is over: the buffer is back with the gauge, `endpoint`
    /// is to be disabled, and `reading` with `result` goes to the client.
    Done { endpoint: Endpoint, reading: Reading, result: Result<(), ErrorCode> },
    /// No operation was in flight; nothing changed.
    Ignored,
}

pub enum CompletionView {
    Next(TransferView),
    Done { endpoint: Endpoint, reading: Reading, result: Result<(), ErrorCode> },
    Ignored,
}

impl View for Completion {
    type V = CompletionView;

    open spec fn view(&self) -> CompletionView {
        match self {
            Completion::Next(t) => CompletionView::Next(t@),
            Completion::Done { endpoint, reading, result } => CompletionView::Done {
                endpoint: *endpoint,
                reading: *reading,
                result: *result,
            },
            Completion::Ignored => CompletionView::Ignored,
        }
    }
}

/// The gauge's state: the tag, the values kept between the transactions of
/// one operation, and the scratch buffer when the gauge holds it.
pub struct GaugeView {
    pub state: State,
    pub soc: u16,
    pub soc_mah: u16,
    pub voltage: u16,
    pub buffer: Option<Seq<u8>>,
}

impl GaugeView {
    /// The gauge holds its buffer exactly when no operation is in flight;
    /// otherwise the bus transport holds it.
    pub open spec fn wf(self) -> bool {
        &&& (self.buffer is Some <==> self.state == State::Idle)
        &&& (self.buffer matches Some(b) ==> b.len() >= BUFFER_LEN)
    }
}

impl Operation {
    /// The register an operation reads first.
    pub open spec fn first_register(self) -> Register {
        match self {
            Operation::Status => Register::Status,
            Operation::StateOfCharge => Register::RepCap,
            Operation::VoltageAndCurrent => Register::Batt,
            Operation::CoulombCount => Register::Coulomb,
            Operation::UniqueId => Register::NRomID,
        }
    }

    /// The tag an operation starts in.
    pub open spec fn setup_state(self) -> State {
        match self {
            Operation::Status => State::SetupReadStatus,
            Operation::StateOfCharge => State::SetupReadSOC,
            Operation::VoltageAndCurrent => State::SetupReadVolt,
            Operation::CoulombCount => State::SetupReadCoulomb,
            Operation::UniqueId => State::SetupReadRomID,
        }
    }
}

/// Success, or the no-acknowledge error when the transport reported anything
/// but a completed command.
pub open spec fn outcome(ok: bool) -> Result<(), ErrorCode> {
    if ok {
        Ok(())
    } else {
        Err(ErrorCode::NoAck)
    }
}

/// The write of `reg`'s address, made with buffer `b`.
pub open spec fn address_write(reg: Register, b: Seq<u8>) -> TransferView {
    TransferView {
        endpoint: reg.spec_endpoint(),
        op: BusOp::Write,
        buffer: b.update(0, reg.spec_address_byte()),
        len: 1,
    }
}

/// The read of `reg`'s bytes into buffer `b`.
pub open spec fn register_read(reg: Register, b: Seq<u8>) -> TransferView {
    TransferView { endpoint: reg.spec_endpoint(), op: BusOp::Read, buffer: b, len: reg.spec_width() }
}

/// `begin` on gauge state `g`: the state after, and the transaction to issue
/// or the error.
pub open spec fn spec_begin(g: GaugeView, op: Operation) -> (GaugeView, Result<TransferView, ErrorCode>) {
    match g.buffer {
        None => (g, Err(ErrorCode::NoMem)),
        Some(b) => (
            GaugeView { state: op.setup_state(), buffer: None, ..g },
            Ok(address_write(op.first_register(), b)),
        ),
    }
}

/// Goes on to `next`, reading `reg` into `b`.
pub open spec fn step_read(g: GaugeView, next: State, reg: Register, b: Seq<u8>) -> (GaugeView, CompletionView) {
    (GaugeView { state: next, ..g }, CompletionView::Next(register_read(reg, b)))
}

/// Goes on to `next`, writing `reg`'s address with `b`.
pub open spec fn step_write(g: GaugeView, next: State, reg: Register, b: Seq<u8>) -> (GaugeView, CompletionView) {
    (GaugeView { state: next, ..g }, CompletionView::Next(address_write(reg, b)))
}

/// Ends the operation, whose last register was `reg`: the buffer comes back
/// and the reading is reported.
pub open spec fn step_finish(g: GaugeView, b: Seq<u8>, reg: Register, reading: Reading, ok: bool) -> (GaugeView, CompletionView) {
    (
        GaugeView { state: State::Idle, buffer: Some(b), ..g },
        CompletionView::Done { endpoint: reg.spec_endpoint(), reading, result: outcome(ok) },
    )
}

/// A transaction completes on gauge state `g`, handing back buffer `b`;
/// `ok` tells whether the transport reported the command complete. The
/// result is the state after and what follows.
pub open spec fn spec_complete(g: GaugeView, b: Seq<u8>, ok: bool) -> (GaugeView, CompletionView) {
    match g.state {
        State::Idle => (g, CompletionView::Ignored),
        State::SetupReadStatus => step_read(g, State::ReadStatus, Register::Status, b),
        State::ReadStatus => step_finish(
            g,
            b,
            Register::Status,
            Reading::Status { status: le_at(b, 0, 2) as u16 },
            ok,
        ),
        State::SetupReadSOC => step_read(g, State::ReadSOC, Register::RepCap, b),
        State::ReadSOC => step_write(
            GaugeView { soc_mah: le_at(b, 0, 2) as u16, soc: le_at(b, 2, 2) as u16, ..g },
            State::SetupReadCap,
            Register::FullCapRep,
            b,
        ),
        State::SetupReadCap => step_read(g, State::ReadCap, Register::FullCapRep, b),
        State::ReadCap => step_finish(
            g,
            b,
            Register::FullCapRep,
            Reading::StateOfCharge {
                percent: g.soc,
                capacity: g.soc_mah,
                full_capacity: le_at(b, 0, 2) as u16,
            },
            ok,
        ),
        State::SetupReadCoulomb => step_read(g, State::ReadCoulomb, Register::Coulomb, b),
        State::ReadCoulomb => step_finish(
            g,
            b,
            Register::Coulomb,
            Reading::Coulomb { coulomb: le_at(b, 0, 2) as u16 },
            ok,
        ),
        State::SetupReadVolt => step_read(g, State::ReadVolt, Register::Batt, b),
        State::ReadVolt => step_write(
            GaugeView { voltage: le_at(b, 0, 2) as u16, ..g },
            State::SetupReadCurrent,
            Register::Current,
            b,
        ),
        State::SetupReadCurrent => step_read(g, State::ReadCurrent, Register::Current, b),
        State::ReadCurrent => step_finish(
            g,
            b,
            Register::Current,
            Reading::VoltageCurrent { voltage: g.voltage, current: le_at(b, 0, 2) as u16 },
            ok,
        ),
        State::SetupReadRomID => step_read(g, State::ReadRomID, Register::NRomID, b),
        State::ReadRomID => step_finish(
            g,
            b,
            Register::NRomID,
            Reading::RomId { rid: le_at(b, 0, 8) as u64 },
            ok,
        ),
    }
}

/// The view of what `begin` returned.
pub open spec fn begin_view(r: Result<Transfer, ErrorCode>) -> Result<TransferView, ErrorCode> {
    match r {
        Ok(t) => Ok(t@),
        Err(e) => Err(e),
    }
}

/// The MAX17205 fuel gauge state machine.
pub struct MAX17205 {
    state: State,
    soc: u16,
    soc_mah: u16,
    voltage: u16,
    buffer: Option<Vec<u8>>,
}

impl View for MAX17205 {
    type V = GaugeView;

    closed spec fn view(&self) -> GaugeView {
        GaugeView {
            state: self.state,
            soc: self.soc,
            soc_mah: self.soc_mah,
            voltage: self.voltage,
            buffer: match self.buffer {
                Some(b) => Some(b@),
                None => None,
            },
        }
    }
}

impl Operation {
    fn first_reg(self) -> (r: Register)
        ensures
            r == self.first_register(),
    {
        match self {
            Operation::Status => Register::Status,
            Operation::StateOfCharge => Register::RepCap,
            Operation::VoltageAndCurrent => Register::Batt,
            Operation::CoulombCount => Register::Coulomb,
            Operation::UniqueId => Register::NRomID,
        }
    }

    fn first_state(self) -> (r: State)
        ensures
            r == self.setup_state(),
    {
        match self {
            Operation::Status => State::SetupReadStatus,
            Operation::StateOfCharge => State::SetupReadSOC,
            Operation::VoltageAndCurrent => State::SetupReadVolt,
            Operation::CoulombCount => State::SetupReadCoulomb,
            Operation::UniqueId => State::SetupReadRomID,
        }
    }
}

/// Puts `reg`'s address into the buffer and makes the write that selects it.
fn write_address(reg: Register, buffer: Vec<u8>) -> (t: Transfer)
    requires
        buffer@.len() >= 1,
    ensures
        t@ == address_write(reg, buffer@),
{
    let mut buffer = buffer;
    buffer.set(0, reg.address_byte());
    Transfer { endpoint: reg.endpoint(), op: BusOp::Write, buffer, len: 1 }
}

/// The read of `reg`'s bytes into the buffer.
fn read_register(reg: Register, buffer: Vec<u8>) -> (t: Transfer)
    ensures
        t@ == register_read(reg, buffer@),
{
    Transfer { endpoint: reg.endpoint(), op: BusOp::Read, buffer, len: reg.width() }
}

impl MAX17205 {
    /// A gauge in the idle state that owns `buffer` as its scratch buffer.
    pub fn new(buffer: Vec<u8>) -> (r: MAX17205)
        requires
            buffer@.len() >= BUFFER_LEN,
        ensures
            r@ == (GaugeView { state: State::Idle, soc: 0, soc_mah: 0, voltage: 0, buffer: Some(buffer@) }),
            r@.wf(),
    {
        MAX17205 { state: State::Idle, soc: 0, soc_mah: 0, voltage: 0, buffer: Some(buffer) }
    }

    /// Starts `op`: claims the buffer and returns the write of the first
    /// register's address; the caller enables the transfer's endpoint and
    /// issues it. While another operation is in flight the buffer is away,
    /// and the call fails with `NoMem`, changing nothing.
    pub fn begin(&mut self, op: Operation) -> (r: Result<Transfer, ErrorCode>)
        requires
            old(self)@.wf(),
        ensures
            final(self)@.wf(),
            final(self)@ == spec_begin(old(self)@, op).0,
            begin_view(r) == spec_begin(old(self)@, op).1,
            old(self)@.state != State::Idle ==> r == Err::<Transfer, ErrorCode>(ErrorCode::NoMem)
                && final(self)@ == old(self)@,
            old(self)@.state == State::Idle ==> r is Ok && final(self)@.state == op.setup_state(),
    {
        match self.buffer.take() {
            None => Err(ErrorCode::NoMem),
            Some(buffer) => {
                let t = write_address(op.first_reg(), buffer);
                self.state = op.first_state();
                Ok(t)
            },
        }
    }

    /// The current state tag.
    pub fn state(&self) -> (r: State)
        ensures
            r == self@.state,
    {
        self.state
    }

    fn go_on(&mut self, next: State, t: Transfer) -> (r: Completion)
        ensures
            final(self)@ == (GaugeView { state: next, ..old(self)@ }),
            r@ == CompletionView::Next(t@),
    {
        self.state = next;
        Completion::Next(t)
    }

    fn finish(&mut self, buffer: Vec<u8>, reg: Register, reading: Reading, ok: bool) -> (r: Completion)
        ensures
            (final(self)@, r@) == step_finish(old(self)@, buffer@, reg, reading, ok),
    {
        self.buffer = Some(buffer);
        self.state = State::Idle;
        let result = if ok {
            Ok(())
        } else {
            Err(ErrorCode::NoAck)
        };
        Completion::Done { endpoint: reg.endpoint(), reading, result }
    }

    /// Handles the completion of the outstanding bus transaction, which hands
    /// `buffer` back with the transport's `status`. A setup tag goes on to
    /// the read of its register; an intermediate read stores what it decoded
    /// and goes on to the next register; the last read decodes the result,
    /// keeps the buffer and reports. Only the status of the last transaction
    /// decides the outcome. With no operation in flight nothing happens.
    pub fn command_complete(&mut self, buffer: Vec<u8>, status: I2CError) -> (r: Completion)
        requires
            old(self)@.wf(),
            buffer@.len() >= BUFFER_LEN,
        ensures
            final(self)@.wf(),
            final(self)@ == spec_complete(old(self)@, buffer@, status == I2CError::CommandComplete).0,
            r@ == spec_complete(old(self)@, buffer@, status == I2CError::CommandComplete).1,
    {
        let ok = status == I2CError::CommandComplete;
        match self.state {
            State::Idle => Completion::Ignored,
            State::SetupReadStatus => self.go_on(State::ReadStatus, read_register(Register::Status, buffer)),
            State::ReadStatus => {
                let status = le_u16(&buffer, 0);
                self.finish(buffer, Register::Status, Reading::Status { status }, ok)
            },
            State::SetupReadSOC => self.go_on(State::ReadSOC, read_register(Register::RepCap, buffer)),
            State::ReadSOC => {
                self.soc_mah = le_u16(&buffer, 0);
                self.soc = le_u16(&buffer, 2);
                self.go_on(State::SetupReadCap, write_address(Register::FullCapRep, buffer))
            },
            State::SetupReadCap => self.go_on(State::ReadCap, read_register(Register::FullCapRep, buffer)),
            State::ReadCap => {
                let full_capacity = le_u16(&buffer, 0);
                let reading = Reading::StateOfCharge {
                    percent: self.soc,
                    capacity: self.soc_mah,
                    full_capacity,
                };
                self.finish(buffer, Register::FullCapRep, reading, ok)
            },
            State::SetupReadCoulomb => self.go_on(State::ReadCoulomb, read_register(Register::Coulomb, buffer)),
            State::ReadCoulomb => {
                let coulomb = le_u16(&buffer, 0);
                self.finish(buffer, Register::Coulomb, Reading::Coulomb { coulomb }, ok)
            },
            State::SetupReadVolt => self.go_on(State::ReadVolt, read_register(Register::Batt, buffer)),
            State::ReadVolt => {
                self.voltage = le_u16(&buffer, 0);
                self.go_on(State::SetupReadCurrent, write_address(Register::Current, buffer))
            },
            State::SetupReadCurrent => self.go_on(State::ReadCurrent, read_register(Register::Current, buffer)),
            State::ReadCurrent => {
                let current = le_u16(&buffer, 0);
                let reading = Reading::VoltageCurrent { voltage: self.voltage, current };
                self.finish(buffer, Register::Current, reading, ok)
            },
            State::SetupReadRomID => self.go_on(State::ReadRomID, read_register(Register::NRomID, buffer)),
            State::ReadRomID => {
                let rid = le_u64(&buffer);
                self.finish(buffer, Register::NRomID, Reading::RomId { rid }, ok)
            },
        }
    }
}

} // verus!
