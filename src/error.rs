use vstd::prelude::*;

verus! {

/// The kernel's generic error codes, as reported to processes.
#[derive(Clone, Copy, Debug, PartialEq, Eq, Structural)]
pub enum ErrorCode {
    Fail,
    Busy,
    Already,
    Off,
    Reserve,
    Inval,
    Size,
    Cancel,
    NoMem,
    NoSupport,
    NoDevice,
    Uninstalled,
    NoAck,
}

impl ErrorCode {
    /// The number by which a process sees this error.
    pub open spec fn spec_code(self) -> usize {
        match self {
            ErrorCode::Fail => 1,
            ErrorCode::Busy => 2,
            ErrorCode::Already => 3,
            ErrorCode::Off => 4,
            ErrorCode::Reserve => 5,
            ErrorCode::Inval => 6,
            ErrorCode::Size => 7,
            ErrorCode::Cancel => 8,
            ErrorCode::NoMem => 9,
            ErrorCode::NoSupport => 10,
            ErrorCode::NoDevice => 11,
            ErrorCode::Uninstalled => 12,
            ErrorCode::NoAck => 13,
        }
    }

    #[verifier::when_used_as_spec(spec_code)]
    pub fn code(self) -> (r: usize)
        ensures
            r == self.spec_code(),
    {
        match self {
            ErrorCode::Fail => 1,
            ErrorCode::Busy => 2,
            ErrorCode::Already => 3,
            ErrorCode::Off => 4,
            ErrorCode::Reserve => 5,
            ErrorCode::Inval => 6,
            ErrorCode::Size => 7,
            ErrorCode::Cancel => 8,
            ErrorCode::NoMem => 9,
            ErrorCode::NoSupport => 10,
            ErrorCode::NoDevice => 11,
            ErrorCode::Uninstalled => 12,
            ErrorCode::NoAck => 13,
        }
    }
}

/// The status code of an outcome: zero for success, the error's code otherwise.
pub open spec fn status_code(r: Result<(), ErrorCode>) -> usize {
    match r {
        Ok(()) => 0,
        Err(e) => e.spec_code(),
    }
}

/// Converts an outcome into the status code handed to a process.
pub fn into_statuscode(r: Result<(), ErrorCode>) -> (c: usize)
    ensures
        c == status_code(r),
{
    match r {
        Ok(()) => 0,
        Err(e) => e.code(),
    }
}

} // verus!
