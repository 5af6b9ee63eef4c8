//! Status codes reported by the native engine.

use vstd::prelude::*;

verus! {

/// The closed set of outcomes a native entry point can report.
#[derive(PartialEq, Eq, Clone, Copy, Debug, Structural)]
#[allow(non_camel_case_types)]
pub enum PvStatus {
    SUCCESS,
    OUT_OF_MEMORY,
    IO_ERROR,
    INVALID_ARGUMENT,
    STOP_ITERATION,
    KEY_ERROR,
    INVALID_STATE,
    RUNTIME_ERROR,
    ACTIVATION_ERROR,
    ACTIVATION_LIMIT_REACHED,
    ACTIVATION_THROTTLED,
    ACTIVATION_REFUSED,
}

impl PvStatus {
    /// The integer the native side uses for this status.
    pub open spec fn spec_code(self) -> int {
        match self {
            PvStatus::SUCCESS => 0,
            PvStatus::OUT_OF_MEMORY => 1,
            PvStatus::IO_ERROR => 2,
            PvStatus::INVALID_ARGUMENT => 3,
            PvStatus::STOP_ITERATION => 4,
            PvStatus::KEY_ERROR => 5,
            PvStatus::INVALID_STATE => 6,
            PvStatus::RUNTIME_ERROR => 7,
            PvStatus::ACTIVATION_ERROR => 8,
            PvStatus::ACTIVATION_LIMIT_REACHED => 9,
            PvStatus::ACTIVATION_THROTTLED => 10,
            PvStatus::ACTIVATION_REFUSED => 11,
        }
    }

    /// The status a native integer code stands for, if it stands for one.
    pub open spec fn spec_from_code(code: int) -> Option<PvStatus> {
        if code == 0 {
            Some(PvStatus::SUCCESS)
        } else if code == 1 {
            Some(PvStatus::OUT_OF_MEMORY)
        } else if code == 2 {
            Some(PvStatus::IO_ERROR)
        } else if code == 3 {
            Some(PvStatus::INVALID_ARGUMENT)
        } else if code == 4 {
            Some(PvStatus::STOP_ITERATION)
        } else if code == 5 {
            Some(PvStatus::KEY_ERROR)
        } else if code == 6 {
            Some(PvStatus::INVALID_STATE)
        } else if code == 7 {
            Some(PvStatus::RUNTIME_ERROR)
        } else if code == 8 {
            Some(PvStatus::ACTIVATION_ERROR)
        } else if code == 9 {
            Some(PvStatus::ACTIVATION_LIMIT_REACHED)
        } else if code == 10 {
            Some(PvStatus::ACTIVATION_THROTTLED)
        } else if code == 11 {
            Some(PvStatus::ACTIVATION_REFUSED)
        } else {
            None
        }
    }

    /// The name of the status, as it is written in diagnostics.
    pub open spec fn spec_name(self) -> Seq<char> {
        match self {
            PvStatus::SUCCESS => "SUCCESS"@,
            PvStatus::OUT_OF_MEMORY => "OUT_OF_MEMORY"@,
            PvStatus::IO_ERROR => "IO_ERROR"@,
            PvStatus::INVALID_ARGUMENT => "INVALID_ARGUMENT"@,
            PvStatus::STOP_ITERATION => "STOP_ITERATION"@,
            PvStatus::KEY_ERROR => "KEY_ERROR"@,
            PvStatus::INVALID_STATE => "INVALID_STATE"@,
            PvStatus::RUNTIME_ERROR => "RUNTIME_ERROR"@,
            PvStatus::ACTIVATION_ERROR => "ACTIVATION_ERROR"@,
            PvStatus::ACTIVATION_LIMIT_REACHED => "ACTIVATION_LIMIT_REACHED"@,
            PvStatus::ACTIVATION_THROTTLED => "ACTIVATION_THROTTLED"@,
            PvStatus::ACTIVATION_REFUSED => "ACTIVATION_REFUSED"@,
        }
    }

    /// The integer the native side uses for this status.
    pub fn code(&self) -> (c: i32)
        ensures
            c == self.spec_code(),
    {
        match self {
            PvStatus::SUCCESS => 0,
            PvStatus::OUT_OF_MEMORY => 1,
            PvStatus::IO_ERROR => 2,
            PvStatus::INVALID_ARGUMENT => 3,
            PvStatus::STOP_ITERATION => 4,
            PvStatus::KEY_ERROR => 5,
            PvStatus::INVALID_STATE => 6,
            PvStatus::RUNTIME_ERROR => 7,
            PvStatus::ACTIVATION_ERROR => 8,
            PvStatus::ACTIVATION_LIMIT_REACHED => 9,
            PvStatus::ACTIVATION_THROTTLED => 10,
            PvStatus::ACTIVATION_REFUSED => 11,
        }
    }

    /// Reads a native integer code. Codes outside the closed set give `None`.
    pub fn from_code(code: i32) -> (r: Option<PvStatus>)
        ensures
            r == Self::spec_from_code(code as int),
            r is Some <==> 0 <= code <= 11,
            r matches Some(s) ==> s.spec_code() == code,
    {
        match code {
            0 => Some(PvStatus::SUCCESS),
            1 => Some(PvStatus::OUT_OF_MEMORY),
            2 => Some(PvStatus::IO_ERROR),
            3 => Some(PvStatus::INVALID_ARGUMENT),
            4 => Some(PvStatus::STOP_ITERATION),
            5 => Some(PvStatus::KEY_ERROR),
            6 => Some(PvStatus::INVALID_STATE),
            7 => Some(PvStatus::RUNTIME_ERROR),
            8 => Some(PvStatus::ACTIVATION_ERROR),
            9 => Some(PvStatus::ACTIVATION_LIMIT_REACHED),
            10 => Some(PvStatus::ACTIVATION_THROTTLED),
            11 => Some(PvStatus::ACTIVATION_REFUSED),
            _ => None,
        }
    }

    /// Reads the status a native call returned. A code outside the closed
    /// set says nothing of what happened and is read as a runtime error.
    pub fn from_native(code: i32) -> (status: PvStatus)
        ensures
            status == match Self::spec_from_code(code as int) {
                Some(known) => known,
                None => PvStatus::RUNTIME_ERROR,
            },
            0 <= code <= 11 ==> status.spec_code() == code,
    {
        match Self::from_code(code) {
            Some(known) => known,
            None => PvStatus::RUNTIME_ERROR,
        }
    }

    /// Whether the status reports success.
    pub fn is_success(&self) -> (r: bool)
        ensures
            r == (*self == PvStatus::SUCCESS),
            r == (self.spec_code() == 0),
    {
        match self {
            PvStatus::SUCCESS => true,
            _ => false,
        }
    }

    /// The name of the status, as it is written in diagnostics.
    pub fn name(&self) -> (s: &'static str)
        ensures
            s@ == self.spec_name(),
    {
        match self {
            PvStatus::SUCCESS => "SUCCESS",
            PvStatus::OUT_OF_MEMORY => "OUT_OF_MEMORY",
            PvStatus::IO_ERROR => "IO_ERROR",
            PvStatus::INVALID_ARGUMENT => "INVALID_ARGUMENT",
            PvStatus::STOP_ITERATION => "STOP_ITERATION",
            PvStatus::KEY_ERROR => "KEY_ERROR",
            PvStatus::INVALID_STATE => "INVALID_STATE",
            PvStatus::RUNTIME_ERROR => "RUNTIME_ERROR",
            PvStatus::ACTIVATION_ERROR => "ACTIVATION_ERROR",
            PvStatus::ACTIVATION_LIMIT_REACHED => "ACTIVATION_LIMIT_REACHED",
            PvStatus::ACTIVATION_THROTTLED => "ACTIVATION_THROTTLED",
            PvStatus::ACTIVATION_REFUSED => "ACTIVATION_REFUSED",
        }
    }
}

/// Codes and statuses correspond one to one: reading the code of a status
/// gives that status back, and a code that reads as a status is the code of
/// that status.
pub proof fn status_codes_correspond(status: PvStatus, code: int)
    ensures
        PvStatus::spec_from_code(status.spec_code()) == Some(status),
        PvStatus::spec_from_code(code) == Some(status) <==> status.spec_code() == code,
        PvStatus::spec_from_code(code) is Some <==> 0 <= code <= 11,
{
}

} // verus!
