//! Status codes reported by every operation.
use vstd::prelude::*;

verus! {

/// Outcome of an operation, as reported to the caller.
#[derive(Clone, Copy, Debug, PartialEq, Eq, Structural)]
pub enum ErrNo {
    /// No error occurred.
    Success,
    /// The caller passed an invalid argument.
    InvalidArgument,
    /// The model encoding is not supported.
    InvalidEncoding,
    /// A location in the caller's memory cannot be read or written.
    MissingMemory,
    /// Device or resource busy. Reserved.
    Busy,
    /// Runtime error. Reserved.
    RuntimeError,
    /// The operation is not implemented for this request.
    UnsupportedOperation,
    /// A value does not fit in the room the caller offers.
    TooLarge,
    /// A handle or an index names nothing.
    NotFound,
}

impl ErrNo {
    /// The stable integer value of a status code.
    pub open spec fn spec_code(self) -> i32 {
        match self {
            ErrNo::Success => 0,
            ErrNo::InvalidArgument => 1,
            ErrNo::InvalidEncoding => 2,
            ErrNo::MissingMemory => 3,
            ErrNo::Busy => 4,
            ErrNo::RuntimeError => 5,
            ErrNo::UnsupportedOperation => 6,
            ErrNo::TooLarge => 7,
            ErrNo::NotFound => 8,
        }
    }

    /// The status code whose integer value is `code`, if there is one.
    pub open spec fn spec_from_code(code: i32) -> Option<ErrNo> {
        if code == 0 {
            Some(ErrNo::Success)
        } else if code == 1 {
            Some(ErrNo::InvalidArgument)
        } else if code == 2 {
            Some(ErrNo::InvalidEncoding)
        } else if code == 3 {
            Some(ErrNo::MissingMemory)
        } else if code == 4 {
            Some(ErrNo::Busy)
        } else if code == 5 {
            Some(ErrNo::RuntimeError)
        } else if code == 6 {
            Some(ErrNo::UnsupportedOperation)
        } else if code == 7 {
            Some(ErrNo::TooLarge)
        } else if code == 8 {
            Some(ErrNo::NotFound)
        } else {
            None
        }
    }

    /// Returns the integer value that callers see.
    pub fn code(self) -> (c: i32)
        ensures
            c == self.spec_code(),
    {
        match self {
            ErrNo::Success => 0,
            ErrNo::InvalidArgument => 1,
            ErrNo::InvalidEncoding => 2,
            ErrNo::MissingMemory => 3,
            ErrNo::Busy => 4,
            ErrNo::RuntimeError => 5,
            ErrNo::UnsupportedOperation => 6,
            ErrNo::TooLarge => 7,
            ErrNo::NotFound => 8,
        }
    }

    /// Reads a status code back from its integer value.
    pub fn from_code(code: i32) -> (e: Option<ErrNo>)
        ensures
            e == Self::spec_from_code(code),
    {
        match code {
            0 => Some(ErrNo::Success),
            1 => Some(ErrNo::InvalidArgument),
            2 => Some(ErrNo::InvalidEncoding),
            3 => Some(ErrNo::MissingMemory),
            4 => Some(ErrNo::Busy),
            5 => Some(ErrNo::RuntimeError),
            6 => Some(ErrNo::UnsupportedOperation),
            7 => Some(ErrNo::TooLarge),
            8 => Some(ErrNo::NotFound),
            _ => None,
        }
    }

    /// Tells whether the status is `Success`.
    pub fn is_success(self) -> (b: bool)
        ensures
            b == (self == ErrNo::Success),
    {
        match self {
            ErrNo::Success => true,
            _ => false,
        }
    }
}

/// Every status code is read back from its own integer value, and from no
/// other: the nine values are distinct and lie between 0 and 8.
pub proof fn lemma_code_roundtrip(e: ErrNo, code: i32)
    ensures
        0 <= e.spec_code() <= 8,
        ErrNo::spec_from_code(e.spec_code()) == Some(e),
        ErrNo::spec_from_code(code) == Some(e) <==> code == e.spec_code(),
{
}

} // verus!
