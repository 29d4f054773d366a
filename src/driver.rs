use vstd::prelude::*;

use crate::bus::{I2CError, Transfer};
use crate::error::{into_statuscode, status_code, ErrorCode};
use crate::max17205::{
    spec_begin, spec_complete, Completion, CompletionView, GaugeView, Operation, Reading,
    BUFFER_LEN, MAX17205,
};

verus! {

/// Receives the result of each logical operation of the gauge, once per
/// operation, with the outcome. Each method receives one reading of its
/// shape and records it, with the outcome, at the end of `delivered`.
pub trait MAX17205Client {
    /// The readings received so far, each with its outcome, in order. A
    /// verified implementation defines it over its own state; the default,
    /// which records nothing, serves implementations written outside
    /// verified code.
    open spec fn delivered(&self) -> Seq<(Reading, Result<(), ErrorCode>)> {
        Seq::empty()
    }

    fn status(&mut self, status: u16, error: Result<(), ErrorCode>)
        ensures
            final(self).delivered() == old(self).delivered().push((Reading::Status { status }, error)),
    ;

    fn state_of_charge(&mut self, percent: u16, capacity: u16, full_capacity: u16, error: Result<(), ErrorCode>)
        ensures
            final(self).delivered() == old(self).delivered().push(
                (Reading::StateOfCharge { percent, capacity, full_capacity }, error),
            ),
    ;

    fn voltage_current(&mut self, voltage: u16, current: u16, error: Result<(), ErrorCode>)
        ensures
            final(self).delivered() == old(self).delivered().push(
                (Reading::VoltageCurrent { voltage, current }, error),
            ),
    ;

    fn coulomb(&mut self, coulomb: u16, error: Result<(), ErrorCode>)
        ensures
            final(self).delivered() == old(self).delivered().push((Reading::Coulomb { coulomb }, error)),
    ;

    fn romid(&mut self, rid: u64, error: Result<(), ErrorCode>)
        ensures
            final(self).delivered() == old(self).delivered().push((Reading::RomId { rid }, error)),
    ;
}

impl Reading {
    /// Hands the reading, with its outcome, to the client method of its
    /// shape: the client receives it exactly once.
    pub fn deliver<C: MAX17205Client>(self, client: &mut C, error: Result<(), ErrorCode>)
        ensures
            final(client).delivered() == old(client).delivered().push((self, error)),
    {
        match self {
            Reading::Status { status } => client.status(status, error),
            Reading::StateOfCharge { percent, capacity, full_capacity } => client.state_of_charge(
                percent,
                capacity,
                full_capacity,
                error,
            ),
            Reading::VoltageCurrent { voltage, current } => client.voltage_current(voltage, current, error),
            Reading::Coulomb { coulomb } => client.coulomb(coulomb, error),
            Reading::RomId { rid } => client.romid(rid, error),
        }
    }
}

/// A process's registration for notifications. Without a function it is
/// the no-op registration: scheduling it does nothing.
#[derive(Clone, Copy, Debug, PartialEq, Eq, Structural)]
pub struct Upcall {
    pub function: Option<usize>,
    pub appdata: usize,
}

impl Default for Upcall {
    fn default() -> (r: Upcall)
        ensures
            r == (Upcall { function: None, appdata: 0 }),
    {
        Upcall { function: None, appdata: 0 }
    }
}

/// A notification scheduled for delivery to a process: the upcall and its
/// three argument words.
#[derive(Clone, Copy, Debug, PartialEq, Eq, Structural)]
pub struct ScheduledUpcall {
    pub upcall: Upcall,
    pub r0: usize,
    pub r1: usize,
    pub r2: usize,
}

/// `q` after scheduling `cb` with arguments `args`.
pub open spec fn schedule_onto(q: Seq<ScheduledUpcall>, cb: Upcall, args: (usize, usize, usize)) -> Seq<ScheduledUpcall> {
    if cb.function is Some {
        q.push(ScheduledUpcall { upcall: cb, r0: args.0, r1: args.1, r2: args.2 })
    } else {
        q
    }
}

impl Upcall {
    /// Schedules the upcall with arguments `r0`, `r1`, `r2` onto `queue`;
    /// returns whether anything was scheduled.
    pub fn schedule(&self, queue: &mut Vec<ScheduledUpcall>, r0: usize, r1: usize, r2: usize) -> (r: bool)
        ensures
            r == self.function is Some,
            final(queue)@ == schedule_onto(old(queue)@, *self, (r0, r1, r2)),
    {
        if self.function.is_some() {
            queue.push(ScheduledUpcall { upcall: *self, r0, r1, r2 });
            true
        } else {
            false
        }
    }
}

/// Capacity in the upper 16 bits, full capacity in the lower 16.
pub open spec fn pack_capacity(capacity: u16, full_capacity: u16) -> usize {
    (capacity * 0x1_0000 + full_capacity) as usize
}

/// The upcall arguments that carry a reading: the status code of the
/// outcome, then two data words.
pub open spec fn upcall_args(reading: Reading, error: Result<(), ErrorCode>) -> (usize, usize, usize) {
    let code = status_code(error);
    match reading {
        Reading::Status { status } => (code, status as usize, 0),
        Reading::StateOfCharge { percent, capacity, full_capacity } => (
            code,
            percent as usize,
            pack_capacity(capacity, full_capacity),
        ),
        Reading::VoltageCurrent { voltage, current } => (code, voltage as usize, current as usize),
        Reading::Coulomb { coulomb } => (code, coulomb as usize, 0),
        Reading::RomId { rid } => (code, (rid % 0x1_0000_0000) as usize, (rid / 0x1_0000_0000) as usize),
    }
}

/// The outcome of a command, as the calling process sees it at once.
#[derive(Clone, Copy, Debug, PartialEq, Eq, Structural)]
pub enum CommandReturn {
    Success,
    Failure(ErrorCode),
}

/// The operation a command number asks for; `None` for the liveness check
/// and for unknown numbers.
pub open spec fn command_operation(command_num: usize) -> Option<Operation> {
    match command_num {
        1 => Some(Operation::Status),
        2 => Some(Operation::StateOfCharge),
        3 => Some(Operation::VoltageAndCurrent),
        4 => Some(Operation::CoulombCount),
        5 => Some(Operation::UniqueId),
        _ => None,
    }
}

/// The syscall adapter: one subscription slot, the gauge, and the upcalls
/// scheduled so far and not yet taken for delivery.
pub struct MAX17205Driver {
    max17205: MAX17205,
    callback: Upcall,
    scheduled: Vec<ScheduledUpcall>,
    delivered: Ghost<Seq<(Reading, Result<(), ErrorCode>)>>,
}

pub struct DriverView {
    pub gauge: GaugeView,
    pub callback: Upcall,
    pub scheduled: Seq<ScheduledUpcall>,
    /// Every reading the adapter has received, with its outcome.
    pub delivered: Seq<(Reading, Result<(), ErrorCode>)>,
}

/// The adapter after it receives `reading` with outcome `error`: the reading
/// is recorded and the subscribed upcall is scheduled with its arguments.
pub open spec fn after_report(v: DriverView, reading: Reading, error: Result<(), ErrorCode>) -> DriverView {
    DriverView {
        scheduled: schedule_onto(v.scheduled, v.callback, upcall_args(reading, error)),
        delivered: v.delivered.push((reading, error)),
        ..v
    }
}

impl View for MAX17205Driver {
    type V = DriverView;

    closed spec fn view(&self) -> DriverView {
        DriverView {
            gauge: self.max17205@,
            callback: self.callback,
            scheduled: self.scheduled@,
            delivered: self.delivered@,
        }
    }
}

impl MAX17205Driver {
    /// An adapter over `max`, with the no-op registration in its slot.
    pub fn new(max: MAX17205) -> (r: MAX17205Driver)
        requires
            max@.wf(),
        ensures
            r@ == (DriverView {
                gauge: max@,
                callback: Upcall { function: None, appdata: 0 },
                scheduled: Seq::empty(),
                delivered: Seq::empty(),
            }),
    {
        MAX17205Driver {
            max17205: max,
            callback: Upcall::default(),
            scheduled: Vec::new(),
            delivered: Ghost(Seq::empty()),
        }
    }

    /// Schedules the subscribed upcall for `reading` with outcome `error`.
    pub fn report(&mut self, reading: Reading, error: Result<(), ErrorCode>)
        ensures
            final(self)@ == after_report(old(self)@, reading, error),
    {
        let code = into_statuscode(error);
        let (r1, r2): (usize, usize) = match reading {
            Reading::Status { status } => (status as usize, 0),
            Reading::StateOfCharge { percent, capacity, full_capacity } => (
                percent as usize,
                (capacity as usize) * 0x1_0000 + (full_capacity as usize),
            ),
            Reading::VoltageCurrent { voltage, current } => (voltage as usize, current as usize),
            Reading::Coulomb { coulomb } => (coulomb as usize, 0),
            Reading::RomId { rid } => ((rid % 0x1_0000_0000) as usize, (rid / 0x1_0000_0000) as usize),
        };
        self.callback.schedule(&mut self.scheduled, code, r1, r2);
        self.delivered = Ghost(self.delivered@.push((reading, error)));
    }

    /// Registers `callback` under subscription number 0 and returns the
    /// registration it replaces (the no-op one if none was made). Any other
    /// number is refused with `NoSupport`, handing `callback` back.
    pub fn subscribe(&mut self, subscribe_num: usize, callback: Upcall) -> (r: Result<Upcall, (Upcall, ErrorCode)>)
        ensures
            subscribe_num == 0 ==> r == Ok::<Upcall, (Upcall, ErrorCode)>(old(self)@.callback)
                && final(self)@ == (DriverView { callback, ..old(self)@ }),
            subscribe_num != 0 ==> r == Err::<Upcall, (Upcall, ErrorCode)>((callback, ErrorCode::NoSupport))
                && final(self)@ == old(self)@,
    {
        if subscribe_num == 0 {
            let prev = self.callback;
            self.callback = callback;
            Ok(prev)
        } else {
            Err((callback, ErrorCode::NoSupport))
        }
    }

    /// Runs command `command_num`: 0 succeeds at once, 1 to 5 begin the
    /// status, state-of-charge, voltage-and-current, coulomb-count and
    /// unique-id reads, any other number fails with `NoSupport`. A read that
    /// begins returns its first transaction to issue; one refused because
    /// another is in flight fails with `NoMem`.
    pub fn command(&mut self, command_num: usize) -> (r: (CommandReturn, Option<Transfer>))
        requires
            old(self)@.gauge.wf(),
        ensures
            final(self)@.gauge.wf(),
            final(self)@.callback == old(self)@.callback,
            final(self)@.scheduled == old(self)@.scheduled,
            final(self)@.delivered == old(self)@.delivered,
            command_num == 0 ==> r.0 == CommandReturn::Success && r.1 is None
                && final(self)@ == old(self)@,
            command_num > 5 ==> r.0 == CommandReturn::Failure(ErrorCode::NoSupport) && r.1 is None
                && final(self)@ == old(self)@,
            command_operation(command_num) matches Some(op) ==> {
                let (g, t) = spec_begin(old(self)@.gauge, op);
                &&& final(self)@.gauge == g
                &&& t matches Ok(tv) ==> (r.0 == CommandReturn::Success && (r.1 matches Some(x) && x@ == tv))
                &&& t matches Err(e) ==> (r.0 == CommandReturn::Failure(e) && r.1 is None)
            },
    {
        let op = match command_num {
            0 => {
                return (CommandReturn::Success, None);
            },
            1 => Operation::Status,
            2 => Operation::StateOfCharge,
            3 => Operation::VoltageAndCurrent,
            4 => Operation::CoulombCount,
            5 => Operation::UniqueId,
            _ => {
                return (CommandReturn::Failure(ErrorCode::NoSupport), None);
            },
        };
        match self.max17205.begin(op) {
            Ok(t) => (CommandReturn::Success, Some(t)),
            Err(e) => (CommandReturn::Failure(e), None),
        }
    }

    /// Passes a bus completion to the gauge; when it ends an operation, the
    /// subscribed upcall is scheduled with the reading, exactly once.
    pub fn command_complete(&mut self, buffer: Vec<u8>, status: I2CError) -> (r: Completion)
        requires
            old(self)@.gauge.wf(),
            buffer@.len() >= BUFFER_LEN,
        ensures
            final(self)@.gauge.wf(),
            final(self)@.gauge == spec_complete(old(self)@.gauge, buffer@, status == I2CError::CommandComplete).0,
            r@ == spec_complete(old(self)@.gauge, buffer@, status == I2CError::CommandComplete).1,
            final(self)@.callback == old(self)@.callback,
            r@ matches CompletionView::Done { reading, result, .. } ==> final(self)@ == after_report(
                DriverView { gauge: final(self)@.gauge, ..old(self)@ },
                reading,
                result,
            ),
            !(r@ is Done) ==> final(self)@.scheduled == old(self)@.scheduled
                && final(self)@.delivered == old(self)@.delivered,
    {
        let r = self.max17205.command_complete(buffer, status);
        if let Completion::Done { reading, result, .. } = &r {
            self.report(*reading, *result);
        }
        r
    }

    /// Hands over the upcalls scheduled so far, in the order they were
    /// scheduled, and empties the queue.
    pub fn take_scheduled(&mut self) -> (r: Vec<ScheduledUpcall>)
        ensures
            r@ == old(self)@.scheduled,
            final(self)@ == (DriverView { scheduled: Seq::empty(), ..old(self)@ }),
    {
        let mut q: Vec<ScheduledUpcall> = Vec::new();
        core::mem::swap(&mut q, &mut self.scheduled);
        q
    }
}

impl MAX17205Client for MAX17205Driver {
    open spec fn delivered(&self) -> Seq<(Reading, Result<(), ErrorCode>)> {
        self@.delivered
    }

    fn status(&mut self, status: u16, error: Result<(), ErrorCode>)
        ensures
            final(self)@ == after_report(old(self)@, Reading::Status { status }, error),
    {
        self.report(Reading::Status { status }, error)
    }

    fn state_of_charge(&mut self, percent: u16, capacity: u16, full_capacity: u16, error: Result<(), ErrorCode>)
        ensures
            final(self)@ == after_report(
                old(self)@,
                Reading::StateOfCharge { percent, capacity, full_capacity },
                error,
            ),
    {
        self.report(Reading::StateOfCharge { percent, capacity, full_capacity }, error)
    }

    fn voltage_current(&mut self, voltage: u16, current: u16, error: Result<(), ErrorCode>)
        ensures
            final(self)@ == after_report(old(self)@, Reading::VoltageCurrent { voltage, current }, error),
    {
        self.report(Reading::VoltageCurrent { voltage, current }, error)
    }

    fn coulomb(&mut self, coulomb: u16, error: Result<(), ErrorCode>)
        ensures
            final(self)@ == after_report(old(self)@, Reading::Coulomb { coulomb }, error),
    {
        self.report(Reading::Coulomb { coulomb }, error)
    }

    fn romid(&mut self, rid: u64, error: Result<(), ErrorCode>)
        ensures
            final(self)@ == after_report(old(self)@, Reading::RomId { rid }, error),
    {
        self.report(Reading::RomId { rid }, error)
    }
}

/// The data words of an upcall give the reading back: the state-of-charge
/// word holds the capacity in its high 16 bits and the full capacity in its
/// low 16, and the two unique-id words are its low and high 32 bits.
pub proof fn lemma_upcall_words_recover(reading: Reading, error: Result<(), ErrorCode>)
    ensures
        upcall_args(reading, error).0 == status_code(error),
        reading matches Reading::StateOfCharge { capacity, full_capacity, .. } ==> ({
            let w = upcall_args(reading, error).2;
            &&& w / 0x1_0000 == capacity
            &&& w % 0x1_0000 == full_capacity
        }),
        reading matches Reading::RomId { rid } ==> ({
            let (_, lo, hi) = upcall_args(reading, error);
            &&& lo < 0x1_0000_0000
            &&& hi < 0x1_0000_0000
            &&& hi * 0x1_0000_0000 + lo == rid
        }),
{
}

} // verus!
