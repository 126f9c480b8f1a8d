//! The failures this crate reports, and how they travel as native status
//! codes.

use crate::platform::{e_fail, e_invalidarg, e_notimpl, hresult_is_ok, s_ok};
use vstd::prelude::*;

verus! {

/// The enumerations that are exchanged with the platform as raw codes.
#[derive(Debug, Clone, Copy, PartialEq, Eq, Structural)]
pub enum EnumKind {
    DataFlow,
    DataFlowMask,
    DeviceState,
    DeviceRole,
    StorageAccessMode,
    AudioSessionState,
    AudioSessionDisconnectReason,
}

/// Why an operation of this crate failed.
#[derive(Debug, Clone, Copy, PartialEq, Eq, Structural)]
pub enum Error {
    /// A call into the platform failed; the code is the status it reported.
    NativeFailure(i32),
    /// The platform sent a raw code that the named enumeration does not define.
    UnknownEnumValue(EnumKind, i64),
    /// The registrar did not accept the unregistration.
    UnregisterFailed,
    /// The platform binding cannot answer this query.
    Unsupported,
}

/// The status that reports success.
pub open spec fn ok_status() -> int {
    0
}

/// The status for a failure that carries no code of its own.
pub open spec fn fail_status() -> int {
    -2147467259
}

/// The status for an argument outside the values that are defined.
pub open spec fn invalid_argument_status() -> int {
    -2147024809
}

/// The status for what is not implemented.
pub open spec fn not_implemented_status() -> int {
    -2147467263
}

impl Error {
    /// The native status under which this error is reported. It is always a
    /// failure code: a `NativeFailure` keeps its code where that code is one,
    /// and is reported as a plain failure where it is not.
    pub open spec fn status_code(self) -> int {
        match self {
            Error::NativeFailure(code) => if code < 0 {
                code as int
            } else {
                fail_status()
            },
            Error::UnknownEnumValue(_, _) => invalid_argument_status(),
            Error::UnregisterFailed => fail_status(),
            Error::Unsupported => not_implemented_status(),
        }
    }

    /// What a native status means: success for every code that is not
    /// negative, and a `NativeFailure` with the code for every other.
    pub open spec fn status_outcome(status: int) -> Result<(), Error> {
        if status >= 0 {
            Ok(())
        } else {
            Err(Error::NativeFailure(status as i32))
        }
    }

    /// Reads the status that a platform call returned.
    pub fn from_status(status: i32) -> (outcome: Result<(), Error>)
        ensures
            outcome == Self::status_outcome(status as int),
    {
        if hresult_is_ok(status) {
            Ok(())
        } else {
            Err(Error::NativeFailure(status))
        }
    }

    /// The native status under which this error is reported.
    pub fn to_status(&self) -> (status: i32)
        ensures
            status == self.status_code(),
            status < 0,
    {
        match self {
            Error::NativeFailure(code) => {
                if hresult_is_ok(*code) {
                    e_fail()
                } else {
                    *code
                }
            },
            Error::UnknownEnumValue(_, _) => e_invalidarg(),
            Error::UnregisterFailed => e_fail(),
            Error::Unsupported => e_notimpl(),
        }
    }

    /// Reading back the status of an error gives a failure, and gives the
    /// same error where it was a `NativeFailure` with a failure code.
    pub proof fn law_status_round_trip(e: Error)
        ensures
            Self::status_outcome(e.status_code()) is Err,
            e matches Error::NativeFailure(code) && code < 0 ==> Self::status_outcome(
                e.status_code(),
            ) == Err::<(), Error>(e),
    {
    }
}

/// The native result of what a handler answered.
pub open spec fn native_result_of(outcome: Result<(), Error>) -> int {
    match outcome {
        Ok(_) => ok_status(),
        Err(e) => e.status_code(),
    }
}

/// The native result code that reports a handler's answer to the platform:
/// success for `Ok`, the error's status for `Err`. A failure is never reported
/// as a success.
pub fn native_result(outcome: &Result<(), Error>) -> (status: i32)
    ensures
        status == native_result_of(*outcome),
        status >= 0 <==> *outcome is Ok,
{
    match outcome {
        Ok(_) => s_ok(),
        Err(e) => e.to_status(),
    }
}

} // verus!
