//! Failure kinds of the authorization check. Every failure is terminal: the
//! check aborts and reports exactly one kind, which the host turns into a
//! nonzero exit status rejecting the transaction.

use vstd::prelude::*;

verus! {

/// A failure of one host query: the four kinds the host interface may signal.
/// An out-of-bound index is meaningful only as the terminator of a witness
/// enumeration; surfaced anywhere else it is an ordinary failure.
#[derive(Clone, Copy, Debug, PartialEq, Eq, Structural)]
pub enum HostError {
    IndexOutOfBound,
    ItemMissing,
    LengthNotEnough,
    Encoding,
}

/// The flat enumeration of reportable failure kinds.
#[derive(Clone, Copy, Debug, PartialEq, Eq, Structural)]
pub enum Error {
    IndexOutOfBound,
    ItemMissing,
    LengthNotEnough,
    Encoding,
    InvalidArgument,
    WrongPubKey,
    RSAPubKeySigLengthError,
    ISO97962RSAVerifyError,
    ISO97962InvalidArg1,
    ISO97962InvalidArg2,
    ISO97962InvalidArg3,
    ISO97962InvalidArg4,
    ISO97962InvalidArg5,
    ISO97962InvalidArg6,
    ISO97962InvalidArg7,
    ISO97962InvalidArg8,
    ISO97962InvalidArg9,
    ISO97962MismatchHash,
}

/// The failure kind under which a host query failure is surfaced, verbatim.
pub open spec fn host_error(err: HostError) -> Error {
    match err {
        HostError::IndexOutOfBound => Error::IndexOutOfBound,
        HostError::ItemMissing => Error::ItemMissing,
        HostError::LengthNotEnough => Error::LengthNotEnough,
        HostError::Encoding => Error::Encoding,
    }
}

impl core::convert::From<HostError> for Error {
    fn from(err: HostError) -> (r: Error)
        ensures
            r == host_error(err),
    {
        match err {
            HostError::IndexOutOfBound => Error::IndexOutOfBound,
            HostError::ItemMissing => Error::ItemMissing,
            HostError::LengthNotEnough => Error::LengthNotEnough,
            HostError::Encoding => Error::Encoding,
        }
    }
}

impl vstd::std_specs::convert::FromSpecImpl<HostError> for Error {
    open spec fn obeys_from_spec() -> bool {
        true
    }

    open spec fn from_spec(err: HostError) -> Error {
        host_error(err)
    }
}

impl Error {
    /// The status code reported to the host for this failure kind.
    pub open spec fn spec_code(self) -> i8 {
        match self {
            Error::IndexOutOfBound => 1,
            Error::ItemMissing => 2,
            Error::LengthNotEnough => 3,
            Error::Encoding => 4,
            Error::InvalidArgument => 5,
            Error::WrongPubKey => 6,
            Error::RSAPubKeySigLengthError => 7,
            Error::ISO97962RSAVerifyError => 8,
            Error::ISO97962InvalidArg1 => 9,
            Error::ISO97962InvalidArg2 => 10,
            Error::ISO97962InvalidArg3 => 11,
            Error::ISO97962InvalidArg4 => 12,
            Error::ISO97962InvalidArg5 => 13,
            Error::ISO97962InvalidArg6 => 14,
            Error::ISO97962InvalidArg7 => 15,
            Error::ISO97962InvalidArg8 => 16,
            Error::ISO97962InvalidArg9 => 17,
            Error::ISO97962MismatchHash => 18,
        }
    }

    /// The status code reported to the host for this failure kind.
    pub fn code(&self) -> (r: i8)
        ensures
            r == self.spec_code(),
    {
        match self {
            Error::IndexOutOfBound => 1,
            Error::ItemMissing => 2,
            Error::LengthNotEnough => 3,
            Error::Encoding => 4,
            Error::InvalidArgument => 5,
            Error::WrongPubKey => 6,
            Error::RSAPubKeySigLengthError => 7,
            Error::ISO97962RSAVerifyError => 8,
            Error::ISO97962InvalidArg1 => 9,
            Error::ISO97962InvalidArg2 => 10,
            Error::ISO97962InvalidArg3 => 11,
            Error::ISO97962InvalidArg4 => 12,
            Error::ISO97962InvalidArg5 => 13,
            Error::ISO97962InvalidArg6 => 14,
            Error::ISO97962InvalidArg7 => 15,
            Error::ISO97962InvalidArg8 => 16,
            Error::ISO97962InvalidArg9 => 17,
            Error::ISO97962MismatchHash => 18,
        }
    }
}

} // verus!
