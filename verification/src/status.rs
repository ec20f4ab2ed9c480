//! Status codes that the adapter produces, and the classes they fall into.

use vstd::prelude::*;

verus! {

/// The reasons for which the adapter itself rejects or fails a transaction.
#[derive(Clone, Copy, Debug, PartialEq, Eq, Structural)]
pub enum StatusCode {
    ExceededMaxTransactionSize,
    MaxGasUnitsExceedsMaxGasUnitsBound,
    MaxGasUnitsBelowMinTransactionGasUnits,
    GasUnitPriceBelowMinBound,
    GasUnitPriceAboveMaxBound,
    UnknownInvariantViolationError,
    EventKeyMismatch,
    VmStartupFailure,
    OutOfGas,
    ResourceDoesNotExist,
    DataFormatError,
}

/// The class of a status, decided by the range its wire code lies in.
#[derive(Clone, Copy, Debug, PartialEq, Eq, Structural)]
pub enum StatusType {
    Validation,
    Verification,
    InvariantViolation,
    Deserialization,
    Execution,
    Unknown,
}

/// How the rest of the system has to treat a failed transaction.
#[derive(Clone, Copy, Debug, PartialEq, Eq, Structural)]
pub enum ErrorClass {
    /// Expected and frequent: the transaction is left out, the block goes on.
    AdmissionRejection,
    /// The payload failed: gas is still charged by the failure epilogue.
    RecoverableFailure,
    /// A bug or a consensus-breaking condition: unsafe to continue.
    Fatal,
}

/// What kind of failure the contract engine reported for a call.
#[derive(Clone, Copy, Debug, PartialEq, Eq, Structural)]
pub enum EngineErrorKind {
    /// The engine's bytecode verifier refused the code that was called.
    Verification,
    /// The called function aborted.
    Abort,
    /// Any other failure inside the engine.
    Other,
}

/// A failure of one call into the contract engine, as the adapter sees it.
#[derive(Clone, Copy, Debug, PartialEq, Eq, Structural)]
pub struct EngineError {
    pub kind: EngineErrorKind,
    /// The engine's own number for the failure: an abort code or a status number.
    pub code: u64,
}

/// The status with which the adapter answers for a transaction that did not pass.
#[derive(Clone, Copy, Debug, PartialEq, Eq, Structural)]
pub enum VMStatus {
    /// A failure that the adapter itself detected.
    Error(StatusCode),
    /// A refusal by a system hook, with the engine's reason for it.
    Rejected(EngineError),
}

/// The wire code of each status code.
pub open spec fn spec_code(c: StatusCode) -> u64 {
    match c {
        StatusCode::ExceededMaxTransactionSize => 10,
        StatusCode::MaxGasUnitsExceedsMaxGasUnitsBound => 13,
        StatusCode::MaxGasUnitsBelowMinTransactionGasUnits => 14,
        StatusCode::GasUnitPriceBelowMinBound => 15,
        StatusCode::GasUnitPriceAboveMaxBound => 16,
        StatusCode::UnknownInvariantViolationError => 2000,
        StatusCode::EventKeyMismatch => 2010,
        StatusCode::VmStartupFailure => 2012,
        StatusCode::OutOfGas => 4002,
        StatusCode::ResourceDoesNotExist => 4003,
        StatusCode::DataFormatError => 4009,
    }
}

/// The class of a wire code: each class owns a range of a thousand codes.
pub open spec fn spec_type_of_code(code: u64) -> StatusType {
    if code <= 999 {
        StatusType::Validation
    } else if code <= 1999 {
        StatusType::Verification
    } else if code <= 2999 {
        StatusType::InvariantViolation
    } else if code <= 3999 {
        StatusType::Deserialization
    } else if code <= 4999 {
        StatusType::Execution
    } else {
        StatusType::Unknown
    }
}

/// The treatment that a class of status asks for.
pub open spec fn spec_class_of_type(t: StatusType) -> ErrorClass {
    match t {
        StatusType::Validation => ErrorClass::AdmissionRejection,
        StatusType::Execution => ErrorClass::RecoverableFailure,
        _ => ErrorClass::Fatal,
    }
}

/// The treatment that a status asks for.
pub open spec fn spec_class(s: VMStatus) -> ErrorClass {
    match s {
        VMStatus::Error(c) => spec_class_of_type(spec_type_of_code(spec_code(c))),
        VMStatus::Rejected(_) => ErrorClass::AdmissionRejection,
    }
}

impl StatusCode {
    /// The stable number under which this code goes over the wire.
    pub fn code(self) -> (n: u64)
        ensures
            n == spec_code(self),
    {
        match self {
            StatusCode::ExceededMaxTransactionSize => 10,
            StatusCode::MaxGasUnitsExceedsMaxGasUnitsBound => 13,
            StatusCode::MaxGasUnitsBelowMinTransactionGasUnits => 14,
            StatusCode::GasUnitPriceBelowMinBound => 15,
            StatusCode::GasUnitPriceAboveMaxBound => 16,
            StatusCode::UnknownInvariantViolationError => 2000,
            StatusCode::EventKeyMismatch => 2010,
            StatusCode::VmStartupFailure => 2012,
            StatusCode::OutOfGas => 4002,
            StatusCode::ResourceDoesNotExist => 4003,
            StatusCode::DataFormatError => 4009,
        }
    }

    /// The code that goes over the wire under `n`, if there is one.
    pub fn from_code(n: u64) -> (r: Option<StatusCode>)
        ensures
            match r {
                Some(c) => spec_code(c) == n,
                None => forall|c: StatusCode| spec_code(c) != n,
            },
    {
        if n == 10 {
            Some(StatusCode::ExceededMaxTransactionSize)
        } else if n == 13 {
            Some(StatusCode::MaxGasUnitsExceedsMaxGasUnitsBound)
        } else if n == 14 {
            Some(StatusCode::MaxGasUnitsBelowMinTransactionGasUnits)
        } else if n == 15 {
            Some(StatusCode::GasUnitPriceBelowMinBound)
        } else if n == 16 {
            Some(StatusCode::GasUnitPriceAboveMaxBound)
        } else if n == 2000 {
            Some(StatusCode::UnknownInvariantViolationError)
        } else if n == 2010 {
            Some(StatusCode::EventKeyMismatch)
        } else if n == 2012 {
            Some(StatusCode::VmStartupFailure)
        } else if n == 4002 {
            Some(StatusCode::OutOfGas)
        } else if n == 4003 {
            Some(StatusCode::ResourceDoesNotExist)
        } else if n == 4009 {
            Some(StatusCode::DataFormatError)
        } else {
            None
        }
    }

    /// The class of this code.
    pub fn status_type(self) -> (t: StatusType)
        ensures
            t == spec_type_of_code(spec_code(self)),
    {
        let n: u64 = self.code();
        if n <= 999 {
            StatusType::Validation
        } else if n <= 1999 {
            StatusType::Verification
        } else if n <= 2999 {
            StatusType::InvariantViolation
        } else if n <= 3999 {
            StatusType::Deserialization
        } else if n <= 4999 {
            StatusType::Execution
        } else {
            StatusType::Unknown
        }
    }
}

impl VMStatus {
    /// How the rest of the system has to treat a transaction that ended in this status.
    pub fn class(self) -> (c: ErrorClass)
        ensures
            c == spec_class(self),
    {
        match self {
            VMStatus::Error(code) => match code.status_type() {
                StatusType::Validation => ErrorClass::AdmissionRejection,
                StatusType::Execution => ErrorClass::RecoverableFailure,
                _ => ErrorClass::Fatal,
            },
            VMStatus::Rejected(_) => ErrorClass::AdmissionRejection,
        }
    }
}

/// Two different status codes never share a wire code.
pub proof fn lemma_codes_are_distinct(a: StatusCode, b: StatusCode)
    ensures
        spec_code(a) == spec_code(b) <==> a == b,
{
}

} // verus!
