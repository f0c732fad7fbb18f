//! Error enumerations for both halves of the bridge: the code the
//! contract side surfaces to contract code, and the ways a runtime-side
//! dispatch can end other than success.

use vstd::prelude::*;

verus! {

/// The contract-side error enumeration, mapped to and from the numeric
/// status code the host returns for an extension call.
#[derive(Debug, Clone, Copy, PartialEq, Eq, Structural)]
pub enum Psp02Error {
    /// The remote operation reported failure.
    TotalSupplyFailed,
}

impl Psp02Error {
    /// Interprets the numeric status code of a finished extension call:
    /// code 0 is success, code 1 is the one defined failure. Any other
    /// code is a protocol defect, not a recoverable condition, so callers
    /// must rule it out before calling (an unverified driver checks and
    /// treats a stray code as fatal).
    pub fn from_status_code(status_code: u32) -> (r: Result<(), Psp02Error>)
        requires
            status_code == 0 || status_code == 1,
        ensures
            r == if status_code == 0 {
                Ok::<(), Psp02Error>(())
            } else {
                Err::<(), Psp02Error>(Psp02Error::TotalSupplyFailed)
            },
    {
        if status_code == 0 {
            Ok(())
        } else {
            Err(Psp02Error::TotalSupplyFailed)
        }
    }
}

/// Every way a runtime-side dispatch can fail. Each variant is surfaced
/// synchronously to the caller as a status; nothing is retried.
#[derive(Debug, Clone, Copy, PartialEq, Eq, Structural)]
pub enum DispatchFailure {
    /// The 16-bit function id named no registered operation.
    UnregisteredFuncId,
    /// The inbound payload did not decode as the expected fixed-shape record.
    DecodeFailed,
    /// The metering subsystem refused the weight charge: budget exhausted.
    WeightExhausted,
    /// The token module rejected the transfer.
    TransferFailed,
    /// Writing the encoded result back to the caller failed.
    WriteFailed,
    /// The host answered a pending action with an event of the wrong shape.
    UnexpectedEvent,
}

} // verus!
