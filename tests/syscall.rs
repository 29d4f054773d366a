use max17205::{
    into_statuscode, BusOp, CommandReturn, Completion, ErrorCode, I2CError, MAX17205Client,
    MAX17205Driver, Reading, ScheduledUpcall, Transfer, Upcall, BUFFER_LEN, MAX17205,
};

fn driver() -> MAX17205Driver {
    MAX17205Driver::new(MAX17205::new(vec![0u8; BUFFER_LEN]))
}

fn upcall(f: usize) -> Upcall {
    Upcall { function: Some(f), appdata: 7 }
}

fn answer(t: Transfer, data: &[u8]) -> Vec<u8> {
    let mut b = t.buffer;
    if t.op == BusOp::Read {
        b[..data.len()].copy_from_slice(data);
    }
    b
}

/// Issues command `num` and completes its transactions, the reads with
/// `reads` in turn and every status `status_last` on the last one.
fn run_command(d: &mut MAX17205Driver, num: usize, reads: &[&[u8]], status_last: I2CError) -> Completion {
    let (ret, t) = d.command(num);
    assert_eq!(ret, CommandReturn::Success);
    let mut t = t.unwrap();
    let mut r = 0;
    loop {
        let data: &[u8] = if t.op == BusOp::Read {
            r += 1;
            reads[r - 1]
        } else {
            &[]
        };
        let last = t.op == BusOp::Read && r == reads.len();
        let s = if last { status_last } else { I2CError::CommandComplete };
        match d.command_complete(answer(t, data), s) {
            Completion::Next(next) => t = next,
            c => return c,
        }
    }
}

#[test]
fn subscribe_returns_previous_registration() {
    let mut d = driver();
    assert_eq!(d.subscribe(0, upcall(1)), Ok(Upcall::default()));
    assert_eq!(d.subscribe(0, upcall(2)), Ok(upcall(1)));
    assert_eq!(d.subscribe(0, upcall(3)), Ok(upcall(2)));
}

#[test]
fn subscribe_other_number_is_refused() {
    let mut d = driver();
    assert_eq!(d.subscribe(1, upcall(1)), Err((upcall(1), ErrorCode::NoSupport)));
    assert_eq!(d.subscribe(0, upcall(2)), Ok(Upcall::default()));
}

#[test]
fn command_dispatch() {
    let mut d = driver();
    let (ret, t) = d.command(0);
    assert_eq!(ret, CommandReturn::Success);
    assert!(t.is_none());
    let (ret, t) = d.command(6);
    assert_eq!(ret, CommandReturn::Failure(ErrorCode::NoSupport));
    assert!(t.is_none());
    let (ret, t) = d.command(1);
    assert_eq!(ret, CommandReturn::Success);
    assert_eq!(t.unwrap().buffer[0], 0x00);
    for num in 1..=5 {
        let (ret, t) = d.command(num);
        assert_eq!(ret, CommandReturn::Failure(ErrorCode::NoMem));
        assert!(t.is_none());
    }
    let (ret, _) = d.command(0);
    assert_eq!(ret, CommandReturn::Success);
}

#[test]
fn state_of_charge_upcall_packs_capacities() {
    let mut d = driver();
    d.subscribe(0, upcall(9)).unwrap();
    let c = run_command(&mut d, 2, &[&[0x64, 0x00, 0x00, 0x32], &[0xC8, 0x00]], I2CError::CommandComplete);
    assert!(matches!(c, Completion::Done { .. }));
    let q = d.take_scheduled();
    assert_eq!(
        q,
        vec![ScheduledUpcall { upcall: upcall(9), r0: 0, r1: 0x3200, r2: 0x0064_00C8 }]
    );
    assert!(d.take_scheduled().is_empty());
}

#[test]
fn unique_id_upcall_splits_words() {
    let mut d = driver();
    d.subscribe(0, upcall(4)).unwrap();
    run_command(&mut d, 5, &[&[0x01, 0x23, 0x45, 0x67, 0x89, 0xAB, 0xCD, 0xEF]], I2CError::CommandComplete);
    assert_eq!(
        d.take_scheduled(),
        vec![ScheduledUpcall { upcall: upcall(4), r0: 0, r1: 0x6745_2301, r2: 0xEFCD_AB89 }]
    );
}

#[test]
fn status_voltage_coulomb_upcalls() {
    let mut d = driver();
    d.subscribe(0, upcall(5)).unwrap();
    run_command(&mut d, 1, &[&[0x34, 0x12]], I2CError::CommandComplete);
    run_command(&mut d, 3, &[&[0x10, 0x0E], &[0x20, 0x00]], I2CError::CommandComplete);
    run_command(&mut d, 4, &[&[0x02, 0x01]], I2CError::CommandComplete);
    assert_eq!(
        d.take_scheduled(),
        vec![
            ScheduledUpcall { upcall: upcall(5), r0: 0, r1: 0x1234, r2: 0 },
            ScheduledUpcall { upcall: upcall(5), r0: 0, r1: 0x0E10, r2: 0x20 },
            ScheduledUpcall { upcall: upcall(5), r0: 0, r1: 0x0102, r2: 0 },
        ]
    );
}

#[test]
fn transport_error_reaches_process_as_status_code() {
    let mut d = driver();
    d.subscribe(0, upcall(6)).unwrap();
    let c = run_command(&mut d, 4, &[&[0x02, 0x01]], I2CError::AddressNak);
    assert!(matches!(c, Completion::Done { result: Err(ErrorCode::NoAck), .. }));
    assert_eq!(
        d.take_scheduled(),
        vec![ScheduledUpcall { upcall: upcall(6), r0: 13, r1: 0x0102, r2: 0 }]
    );
    let (ret, t) = d.command(4);
    assert_eq!(ret, CommandReturn::Success);
    assert!(t.is_some());
}

#[test]
fn no_op_registration_schedules_nothing() {
    let mut d = driver();
    run_command(&mut d, 1, &[&[0x34, 0x12]], I2CError::CommandComplete);
    assert!(d.take_scheduled().is_empty());
    let mut q = Vec::new();
    assert!(!Upcall::default().schedule(&mut q, 1, 2, 3));
    assert!(q.is_empty());
    assert!(upcall(1).schedule(&mut q, 1, 2, 3));
    assert_eq!(q, vec![ScheduledUpcall { upcall: upcall(1), r0: 1, r1: 2, r2: 3 }]);
}

#[test]
fn status_codes() {
    assert_eq!(into_statuscode(Ok(())), 0);
    assert_eq!(into_statuscode(Err(ErrorCode::Fail)), 1);
    assert_eq!(into_statuscode(Err(ErrorCode::NoMem)), 9);
    assert_eq!(into_statuscode(Err(ErrorCode::NoSupport)), 10);
    assert_eq!(into_statuscode(Err(ErrorCode::NoAck)), 13);
}

#[derive(Default)]
struct Recorder {
    seen: Vec<String>,
}

impl MAX17205Client for Recorder {
    fn status(&mut self, status: u16, error: Result<(), ErrorCode>) {
        self.seen.push(format!("status {} {:?}", status, error));
    }
    fn state_of_charge(&mut self, percent: u16, capacity: u16, full_capacity: u16, error: Result<(), ErrorCode>) {
        self.seen.push(format!("soc {} {} {} {:?}", percent, capacity, full_capacity, error));
    }
    fn voltage_current(&mut self, voltage: u16, current: u16, error: Result<(), ErrorCode>) {
        self.seen.push(format!("vc {} {} {:?}", voltage, current, error));
    }
    fn coulomb(&mut self, coulomb: u16, error: Result<(), ErrorCode>) {
        self.seen.push(format!("coulomb {} {:?}", coulomb, error));
    }
    fn romid(&mut self, rid: u64, error: Result<(), ErrorCode>) {
        self.seen.push(format!("romid {} {:?}", rid, error));
    }
}

#[test]
fn reading_goes_to_matching_client_method() {
    let mut r = Recorder::default();
    Reading::Status { status: 3 }.deliver(&mut r, Ok(()));
    Reading::StateOfCharge { percent: 1, capacity: 2, full_capacity: 3 }.deliver(&mut r, Err(ErrorCode::NoAck));
    Reading::VoltageCurrent { voltage: 4, current: 5 }.deliver(&mut r, Ok(()));
    Reading::Coulomb { coulomb: 6 }.deliver(&mut r, Ok(()));
    Reading::RomId { rid: 7 }.deliver(&mut r, Ok(()));
    assert_eq!(
        r.seen,
        vec![
            "status 3 Ok(())",
            "soc 1 2 3 Err(NoAck)",
            "vc 4 5 Ok(())",
            "coulomb 6 Ok(())",
            "romid 7 Ok(())",
        ]
    );
}

#[test]
fn driver_as_client_schedules_upcall() {
    let mut d = driver();
    d.subscribe(0, upcall(8)).unwrap();
    Reading::StateOfCharge { percent: 50, capacity: 100, full_capacity: 200 }.deliver(&mut d, Ok(()));
    assert_eq!(
        d.take_scheduled(),
        vec![ScheduledUpcall { upcall: upcall(8), r0: 0, r1: 50, r2: 0x0064_00C8 }]
    );
}

#[test]
fn sink_methods_schedule_one_upcall_each() {
    let mut d = driver();
    d.subscribe(0, upcall(2)).unwrap();
    d.status(0x1234, Err(ErrorCode::NoAck));
    d.state_of_charge(50, 100, 200, Ok(()));
    d.voltage_current(3, 4, Ok(()));
    d.coulomb(5, Ok(()));
    d.romid(0x0000_0001_0000_0002, Ok(()));
    assert_eq!(
        d.take_scheduled(),
        vec![
            ScheduledUpcall { upcall: upcall(2), r0: 13, r1: 0x1234, r2: 0 },
            ScheduledUpcall { upcall: upcall(2), r0: 0, r1: 50, r2: 0x0064_00C8 },
            ScheduledUpcall { upcall: upcall(2), r0: 0, r1: 3, r2: 4 },
            ScheduledUpcall { upcall: upcall(2), r0: 0, r1: 5, r2: 0 },
            ScheduledUpcall { upcall: upcall(2), r0: 0, r1: 2, r2: 1 },
        ]
    );
}
