//! Reply status codes: every reply carries a single status byte that
//! classifies the outcome of a command.  Exactly one numeric code maps to
//! exactly one variant (100 and 101 for the success kinds, 1 through 6 for
//! the error kinds); any other code is an invalid-status decoding error.

use vstd::prelude::*;

verus! {

/// A `Status` that indicates that everything went well.
#[derive(Debug, PartialEq, Eq, Structural, Clone, Copy)]
pub enum OkStatus {
    /// Successfully executed, no error (code 100).
    Success,
    /// Command loaded into TMCL program EEPROM (code 101).
    LoadedIntoEEPROM,
}

/// A `Status` that indicates an error reported by the module.
#[derive(Debug, PartialEq, Eq, Structural, Clone, Copy)]
pub enum ErrStatus {
    /// Wrong checksum (code 1).
    WrongChecksum,
    /// Invalid command (code 2).
    InvalidCommand,
    /// Wrong type (code 3).
    WrongType,
    /// Invalid value (code 4).
    InvalidValue,
    /// Configuration EEPROM locked (code 5).
    EEPROMLocked,
    /// Command not available (code 6).
    CommandNotAvailable,
}

/// Every reply from a module contains a `Status`.
#[must_use]
#[derive(Debug, PartialEq, Eq, Structural, Clone, Copy)]
pub enum Status {
    Success(OkStatus),
    Error(ErrStatus),
}

/// The result of attempting to convert a number that is not a valid status
/// code into `Status`.
#[derive(Debug, PartialEq, Eq, Structural, Clone, Copy)]
pub struct NonValidErrorCode;

impl Status {
    /// The numeric code of this status on the wire.
    pub open spec fn spec_code(self) -> u8 {
        match self {
            Status::Success(OkStatus::Success) => 100,
            Status::Success(OkStatus::LoadedIntoEEPROM) => 101,
            Status::Error(ErrStatus::WrongChecksum) => 1,
            Status::Error(ErrStatus::InvalidCommand) => 2,
            Status::Error(ErrStatus::WrongType) => 3,
            Status::Error(ErrStatus::InvalidValue) => 4,
            Status::Error(ErrStatus::EEPROMLocked) => 5,
            Status::Error(ErrStatus::CommandNotAvailable) => 6,
        }
    }

    /// The status a numeric code stands for, or `None` where the code is not
    /// a valid status code.
    pub open spec fn spec_from_code(id: u8) -> Option<Status> {
        if id == 100 {
            Some(Status::Success(OkStatus::Success))
        } else if id == 101 {
            Some(Status::Success(OkStatus::LoadedIntoEEPROM))
        } else if id == 1 {
            Some(Status::Error(ErrStatus::WrongChecksum))
        } else if id == 2 {
            Some(Status::Error(ErrStatus::InvalidCommand))
        } else if id == 3 {
            Some(Status::Error(ErrStatus::WrongType))
        } else if id == 4 {
            Some(Status::Error(ErrStatus::InvalidValue))
        } else if id == 5 {
            Some(Status::Error(ErrStatus::EEPROMLocked))
        } else if id == 6 {
            Some(Status::Error(ErrStatus::CommandNotAvailable))
        } else {
            None
        }
    }

    /// Fallible conversion from `u8`: succeeds exactly on the valid status
    /// codes, and returns the one status each such code stands for.
    pub fn try_from_u8(id: u8) -> (r: Result<Status, NonValidErrorCode>)
        ensures
            match r {
                Ok(s) => Status::spec_from_code(id) == Some(s),
                Err(_) => Status::spec_from_code(id) is None,
            },
    {
        match id {
            100 => Ok(Status::Success(OkStatus::Success)),
            101 => Ok(Status::Success(OkStatus::LoadedIntoEEPROM)),
            1 => Ok(Status::Error(ErrStatus::WrongChecksum)),
            2 => Ok(Status::Error(ErrStatus::InvalidCommand)),
            3 => Ok(Status::Error(ErrStatus::WrongType)),
            4 => Ok(Status::Error(ErrStatus::InvalidValue)),
            5 => Ok(Status::Error(ErrStatus::EEPROMLocked)),
            6 => Ok(Status::Error(ErrStatus::CommandNotAvailable)),
            _ => Err(NonValidErrorCode),
        }
    }
}

/// One status, one code: converting a status to its numeric code and back
/// yields the status again, so distinct statuses have distinct codes.
pub proof fn lemma_status_code_round_trip(s: Status)
    ensures
        Status::spec_from_code(s.spec_code()) == Some(s),
{
}

} // verus!
